//! The routing of a request, by its method and path, to its response.

use crate::readings::{get_random_prediction, readings};
use crate::response::{
    health_response, not_found_response, prediction_response, preflight_response, Response,
    ResponseView,
};
use vstd::prelude::*;
use vstd::string::*;
use vstd::utf8::encode_utf8_decode_utf8;

verus! {

/// The method of a request. A method beyond the nine of HTTP/1.1 is
/// `Extension`.
#[derive(Debug, Clone, Copy, PartialEq, Eq, Structural)]
pub enum Method {
    Options,
    Get,
    Post,
    Put,
    Delete,
    Head,
    Trace,
    Connect,
    Patch,
    Extension,
}

/// The branch that handles a request.
#[derive(Debug, Clone, Copy, PartialEq, Eq, Structural)]
pub enum Route {
    /// The preflight request of a browser, on any path.
    Preflight,
    /// The liveness probe.
    Health,
    /// The question to the ball.
    Prediction,
    /// Everything else.
    NotFound,
}

/// The path of the liveness probe.
pub const HEALTH_PATH: &'static str = "/health";

/// The path of the question to the ball.
pub const API_PATH: &'static str = "/api";

/// The root path, which asks the ball too.
pub const ROOT_PATH: &'static str = "/";

/// The branch for a method and a path. `OPTIONS` goes first, whatever the
/// path; the paths count for `GET` alone.
pub open spec fn route_of(method: Method, path: Seq<char>) -> Route {
    if method == Method::Options {
        Route::Preflight
    } else if method == Method::Get && path =~= HEALTH_PATH@ {
        Route::Health
    } else if method == Method::Get && (path =~= API_PATH@ || path =~= ROOT_PATH@) {
        Route::Prediction
    } else {
        Route::NotFound
    }
}

/// Whether two strings hold the same text.
pub fn same_text(a: &str, b: &str) -> (same: bool)
    ensures
        same == (a@ == b@),
{
    let x = a.as_bytes();
    let y = b.as_bytes();
    proof {
        encode_utf8_decode_utf8(a@);
        encode_utf8_decode_utf8(b@);
    }
    if x.len() != y.len() {
        return false;
    }
    let mut i: usize = 0;
    while i < x.len()
        invariant
            i <= x.len(),
            x.len() == y.len(),
            x@ == a.spec_bytes(),
            y@ == b.spec_bytes(),
            forall|k: int| 0 <= k < i ==> x@[k] == y@[k],
        decreases x.len() - i,
    {
        if x[i] != y[i] {
            return false;
        }
        i += 1;
    }
    assert(x@ =~= y@);
    true
}

/// The branch that handles the request with this method and path.
pub fn route(method: Method, path: &str) -> (r: Route)
    ensures
        r == route_of(method, path@),
{
    match method {
        Method::Options => Route::Preflight,
        Method::Get => {
            if same_text(path, HEALTH_PATH) {
                Route::Health
            } else if same_text(path, API_PATH) || same_text(path, ROOT_PATH) {
                Route::Prediction
            } else {
                Route::NotFound
            }
        },
        _ => Route::NotFound,
    }
}

/// Whether `response` is an answer that the service may give to the request
/// with this method and path: the one answer of the branch, or, where the
/// ball is asked, the answer that carries one of the readings.
pub open spec fn answers(method: Method, path: Seq<char>, response: ResponseView) -> bool {
    match route_of(method, path) {
        Route::Preflight => response == preflight_response(),
        Route::Health => response == health_response(),
        Route::Prediction => exists|i: int|
            0 <= i < 20 && response == prediction_response(#[trigger] readings()[i]),
        Route::NotFound => response == not_found_response(),
    }
}

/// The response to the request with this method and path. A question to the
/// ball draws its reading anew on each call.
pub fn handle_request(method: Method, path: &str) -> (response: Response)
    ensures
        answers(method, path@, response@),
{
    match route(method, path) {
        Route::Preflight => Response::new(),
        Route::Health => Response::health(),
        Route::Prediction => Response::prediction(get_random_prediction()),
        Route::NotFound => Response::not_found(),
    }
}

} // verus!
