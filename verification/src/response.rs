//! The response to one request: status, header fields and body.

use crate::headers::{common_fields, common_headers, header_fields};
use crate::records::{
    error_json, health_json, prediction_json, ErrorResponse, HealthResponse, PredictionResponse,
    SERVICE_NAME,
};
use hyper::header::HeaderValue;
use hyper::HeaderMap;
use vstd::prelude::*;

verus! {

/// The status of a request that was served.
pub const STATUS_OK: u16 = 200;

/// The status of a request that no route matches.
pub const STATUS_NOT_FOUND: u16 = 404;

/// One response, ready to be sent.
#[derive(Debug)]
pub struct Response {
    pub status: u16,
    pub headers: HeaderMap<HeaderValue>,
    pub body: String,
}

/// What a response says: its status, its fields by lower-case name, and the
/// text of its body.
pub struct ResponseView {
    pub status: u16,
    pub fields: Map<Seq<char>, Seq<char>>,
    pub body: Seq<char>,
}

impl View for Response {
    type V = ResponseView;

    open spec fn view(&self) -> ResponseView {
        ResponseView {
            status: self.status,
            fields: header_fields(self.headers),
            body: self.body@,
        }
    }
}

/// The answer to a preflight request: served, with no body.
pub open spec fn preflight_response() -> ResponseView {
    ResponseView { status: STATUS_OK, fields: common_fields(), body: Seq::empty() }
}

/// The answer to a liveness probe.
pub open spec fn health_response() -> ResponseView {
    ResponseView {
        status: STATUS_OK,
        fields: common_fields(),
        body: health_json("ok"@, SERVICE_NAME@),
    }
}

/// The answer that carries `reading`.
pub open spec fn prediction_response(reading: Seq<char>) -> ResponseView {
    ResponseView { status: STATUS_OK, fields: common_fields(), body: prediction_json(reading) }
}

/// The answer to a request that no route matches.
pub open spec fn not_found_response() -> ResponseView {
    ResponseView {
        status: STATUS_NOT_FOUND,
        fields: common_fields(),
        body: error_json("Not found"@, "Available endpoints: /api, /health"@),
    }
}

impl Response {
    /// A served response with the common fields and no body: the answer to a
    /// preflight request, and what every other branch starts from.
    pub fn new() -> (r: Response)
        ensures
            r@ == preflight_response(),
    {
        Response { status: STATUS_OK, headers: common_headers(), body: String::new() }
    }

    /// The answer to a liveness probe.
    pub fn health() -> (r: Response)
        ensures
            r@ == health_response(),
    {
        let mut response = Response::new();
        response.body = HealthResponse::ok().to_json();
        response
    }

    /// The answer that carries `reading`.
    pub fn prediction(reading: String) -> (r: Response)
        ensures
            r@ == prediction_response(reading@),
    {
        let mut response = Response::new();
        response.body = PredictionResponse::new(reading).to_json();
        response
    }

    /// The answer to a request that no route matches.
    pub fn not_found() -> (r: Response)
        ensures
            r@ == not_found_response(),
    {
        let mut response = Response::new();
        response.status = STATUS_NOT_FOUND;
        response.body = ErrorResponse::not_found().to_json();
        response
    }
}

} // verus!
