use magic_ball::headers::common_headers;
use magic_ball::readings::PREDICTIONS;
use magic_ball::response::Response;
use magic_ball::router::{handle_request, route, same_text, Method, Route};

const HEALTH_BODY: &str = "{\"status\":\"ok\",\"service\":\"magic-ball-server\"}";
const NOT_FOUND_BODY: &str =
    "{\"error\":\"Not found\",\"message\":\"Available endpoints: /api, /health\"}";

fn header(response: &Response, name: &str) -> String {
    match response.headers.get(name) {
        Some(value) => value.to_str().unwrap().to_string(),
        None => panic!("no header {}", name),
    }
}

fn assert_common_headers(response: &Response) {
    assert_eq!(header(response, "Content-Type"), "application/json");
    assert_eq!(header(response, "Access-Control-Allow-Origin"), "*");
    assert_eq!(header(response, "Access-Control-Allow-Methods"), "GET, POST, OPTIONS");
    assert_eq!(header(response, "Access-Control-Allow-Headers"), "Content-Type");
    assert_eq!(response.headers.len(), 4);
    assert_eq!(response.headers.keys_len(), 4);
}

fn reading_of(body: &str) -> String {
    let start = "{\"reading\":\"";
    let end = "\"}";
    assert!(body.starts_with(start), "body {}", body);
    assert!(body.ends_with(end), "body {}", body);
    body[start.len()..body.len() - end.len()].to_string()
}

#[test]
fn health_is_served_with_its_exact_body() {
    let response = handle_request(Method::Get, "/health");
    assert_eq!(response.status, 200);
    assert_eq!(response.body, HEALTH_BODY);
}

#[test]
fn health_is_the_same_after_other_requests() {
    let first = handle_request(Method::Get, "/health");
    let _ = handle_request(Method::Get, "/api");
    let _ = handle_request(Method::Post, "/nope");
    let _ = handle_request(Method::Options, "/health");
    let second = handle_request(Method::Get, "/health");
    assert_eq!(first.status, second.status);
    assert_eq!(first.body, second.body);
    assert_eq!(first.headers, second.headers);
    assert_eq!(second.body, HEALTH_BODY);
}

#[test]
fn options_is_served_empty_on_any_path() {
    for path in ["/anything", "/", "/api", "/health", "/no/such/path", "", "*"] {
        let response = handle_request(Method::Options, path);
        assert_eq!(response.status, 200, "path {}", path);
        assert_eq!(response.body, "", "path {}", path);
        assert_eq!(header(&response, "Access-Control-Allow-Origin"), "*");
        assert_eq!(header(&response, "Access-Control-Allow-Methods"), "GET, POST, OPTIONS");
        assert_eq!(header(&response, "Access-Control-Allow-Headers"), "Content-Type");
    }
}

#[test]
fn unknown_path_is_not_found() {
    let response = handle_request(Method::Get, "/nope");
    assert_eq!(response.status, 404);
    assert_eq!(response.body, NOT_FOUND_BODY);
}

#[test]
fn post_to_api_is_not_found() {
    let response = handle_request(Method::Post, "/api");
    assert_eq!(response.status, 404);
    assert_eq!(response.body, NOT_FOUND_BODY);
}

#[test]
fn api_is_served_with_a_reading() {
    let response = handle_request(Method::Get, "/api");
    assert_eq!(response.status, 200);
    let reading = reading_of(&response.body);
    assert!(PREDICTIONS.contains(&reading.as_str()), "reading {}", reading);
}

#[test]
fn root_is_served_with_a_reading() {
    let response = handle_request(Method::Get, "/");
    assert_eq!(response.status, 200);
    let reading = reading_of(&response.body);
    assert!(PREDICTIONS.contains(&reading.as_str()), "reading {}", reading);
}

#[test]
fn every_response_carries_the_common_headers() {
    assert_common_headers(&handle_request(Method::Get, "/api"));
    assert_common_headers(&handle_request(Method::Get, "/"));
    assert_common_headers(&handle_request(Method::Get, "/health"));
    assert_common_headers(&handle_request(Method::Options, "/anything"));
    assert_common_headers(&handle_request(Method::Get, "/nope"));
    assert_common_headers(&handle_request(Method::Post, "/api"));
}

#[test]
fn header_names_are_found_in_any_case() {
    let response = Response::new();
    assert_eq!(header(&response, "content-type"), "application/json");
    assert_eq!(header(&response, "CONTENT-TYPE"), "application/json");
    assert_eq!(header(&response, "access-control-allow-origin"), "*");
    let names: Vec<String> = response.headers.keys().map(|name| name.as_str().to_string()).collect();
    assert_eq!(names.len(), 4);
    assert!(names.contains(&"access-control-allow-origin".to_string()));
    assert!(names.contains(&"access-control-allow-methods".to_string()));
    assert!(names.contains(&"access-control-allow-headers".to_string()));
    assert!(names.contains(&"content-type".to_string()));
}

#[test]
fn builders_give_the_answer_of_their_branch() {
    let preflight = Response::new();
    assert_eq!(preflight.status, 200);
    assert_eq!(preflight.body, "");
    assert_common_headers(&preflight);

    let health = Response::health();
    assert_eq!(health.status, 200);
    assert_eq!(health.body, HEALTH_BODY);
    assert_common_headers(&health);

    let prediction = Response::prediction("Outlook good".to_string());
    assert_eq!(prediction.status, 200);
    assert_eq!(prediction.body, "{\"reading\":\"Outlook good\"}");
    assert_common_headers(&prediction);

    let not_found = Response::not_found();
    assert_eq!(not_found.status, 404);
    assert_eq!(not_found.body, NOT_FOUND_BODY);
    assert_common_headers(&not_found);
}

#[test]
fn options_goes_before_the_paths() {
    assert_eq!(route(Method::Options, "/health"), Route::Preflight);
    assert_eq!(route(Method::Options, "/api"), Route::Preflight);
    assert_eq!(route(Method::Options, "/nope"), Route::Preflight);
    assert_eq!(route(Method::Options, ""), Route::Preflight);
}

#[test]
fn get_is_routed_by_its_path() {
    assert_eq!(route(Method::Get, "/health"), Route::Health);
    assert_eq!(route(Method::Get, "/api"), Route::Prediction);
    assert_eq!(route(Method::Get, "/"), Route::Prediction);
    assert_eq!(route(Method::Get, ""), Route::NotFound);
    assert_eq!(route(Method::Get, "/nope"), Route::NotFound);
    assert_eq!(route(Method::Get, "/api/"), Route::NotFound);
    assert_eq!(route(Method::Get, "/health/"), Route::NotFound);
    assert_eq!(route(Method::Get, "/API"), Route::NotFound);
    assert_eq!(route(Method::Get, "/Health"), Route::NotFound);
    assert_eq!(route(Method::Get, "/healt"), Route::NotFound);
    assert_eq!(route(Method::Get, "//"), Route::NotFound);
}

#[test]
fn other_methods_match_no_route() {
    let methods = [
        Method::Post,
        Method::Put,
        Method::Delete,
        Method::Head,
        Method::Trace,
        Method::Connect,
        Method::Patch,
        Method::Extension,
    ];
    for method in methods {
        for path in ["/", "/api", "/health", "/nope"] {
            assert_eq!(route(method, path), Route::NotFound);
            let response = handle_request(method, path);
            assert_eq!(response.status, 404);
            assert_eq!(response.body, NOT_FOUND_BODY);
        }
    }
}

#[test]
fn same_text_compares_whole_strings() {
    assert!(same_text("", ""));
    assert!(same_text("/api", "/api"));
    assert!(!same_text("/api", "/apj"));
    assert!(!same_text("/api", "/ap"));
    assert!(!same_text("/ap", "/api"));
    assert!(!same_text("", "/"));
    assert!(same_text("/caf\u{e9}", "/caf\u{e9}"));
    assert!(!same_text("/caf\u{e9}", "/cafe"));
    assert!(!same_text("/caf\u{e9}", "/caf\u{e8}"));
}

#[test]
fn the_common_headers_are_four() {
    let headers = common_headers();
    assert_eq!(headers.len(), 4);
    assert_eq!(headers.get("content-type").unwrap(), "application/json");
    assert_eq!(headers.get("access-control-allow-origin").unwrap(), "*");
    assert_eq!(headers.get("access-control-allow-methods").unwrap(), "GET, POST, OPTIONS");
    assert_eq!(headers.get("access-control-allow-headers").unwrap(), "Content-Type");
    assert!(headers.get("content-length").is_none());
}
