//! The records that the service sends, and their JSON texts.

use crate::json::{json_quote, json_text};
use vstd::prelude::*;
use vstd::string::*;

verus! {

/// The name under which the service reports itself.
pub const SERVICE_NAME: &'static str = "magic-ball-server";

/// The answer to a question: one reading.
#[derive(Debug)]
pub struct PredictionResponse {
    pub reading: String,
}

/// The answer to a liveness probe.
#[derive(Debug)]
pub struct HealthResponse {
    pub status: String,
    pub service: String,
}

/// The answer to a request that no route matches.
#[derive(Debug)]
pub struct ErrorResponse {
    pub error: String,
    pub message: String,
}

/// The compact JSON object with the one member `reading`.
pub open spec fn prediction_json(reading: Seq<char>) -> Seq<char> {
    "{\"reading\":"@ + json_text(reading) + "}"@
}

/// The compact JSON object with the members `status` and `service`, in this
/// order.
pub open spec fn health_json(status: Seq<char>, service: Seq<char>) -> Seq<char> {
    "{\"status\":"@ + json_text(status) + ",\"service\":"@ + json_text(service) + "}"@
}

/// The compact JSON object with the members `error` and `message`, in this
/// order.
pub open spec fn error_json(error: Seq<char>, message: Seq<char>) -> Seq<char> {
    "{\"error\":"@ + json_text(error) + ",\"message\":"@ + json_text(message) + "}"@
}

impl PredictionResponse {
    /// The record that carries `reading`.
    pub fn new(reading: String) -> (r: Self)
        ensures
            r.reading@ == reading@,
    {
        PredictionResponse { reading }
    }

    /// The record as compact JSON.
    pub fn to_json(&self) -> (text: String)
        ensures
            text@ == prediction_json(self.reading@),
    {
        let mut text = String::from_str("{\"reading\":");
        let reading = json_quote(self.reading.as_str());
        text.append(reading.as_str());
        text.append("}");
        text
    }
}

impl HealthResponse {
    /// The record of a service that is up.
    pub fn ok() -> (r: Self)
        ensures
            r.status@ == "ok"@,
            r.service@ == SERVICE_NAME@,
    {
        HealthResponse { status: String::from_str("ok"), service: String::from_str(SERVICE_NAME) }
    }

    /// The record as compact JSON.
    pub fn to_json(&self) -> (text: String)
        ensures
            text@ == health_json(self.status@, self.service@),
    {
        let mut text = String::from_str("{\"status\":");
        let status = json_quote(self.status.as_str());
        text.append(status.as_str());
        text.append(",\"service\":");
        let service = json_quote(self.service.as_str());
        text.append(service.as_str());
        text.append("}");
        text
    }
}

impl ErrorResponse {
    /// The record that names the two endpoints of the service.
    pub fn not_found() -> (r: Self)
        ensures
            r.error@ == "Not found"@,
            r.message@ == "Available endpoints: /api, /health"@,
    {
        ErrorResponse {
            error: String::from_str("Not found"),
            message: String::from_str("Available endpoints: /api, /health"),
        }
    }

    /// The record as compact JSON.
    pub fn to_json(&self) -> (text: String)
        ensures
            text@ == error_json(self.error@, self.message@),
    {
        let mut text = String::from_str("{\"error\":");
        let error = json_quote(self.error.as_str());
        text.append(error.as_str());
        text.append(",\"message\":");
        let message = json_quote(self.message.as_str());
        text.append(message.as_str());
        text.append("}");
        text
    }
}

} // verus!
