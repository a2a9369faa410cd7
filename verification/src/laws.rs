//! What holds of every answer of the service.

use crate::headers::{
    field, lemma_common_fields, ALLOWED_HEADERS, ALLOWED_METHODS, ALLOW_HEADERS, ALLOW_METHODS,
    ALLOW_ORIGIN, ANY_ORIGIN, CONTENT_TYPE, JSON_CONTENT,
};
use crate::json::is_plain;
use crate::readings::{is_reading, readings};
use crate::response::{
    health_response, not_found_response, prediction_response, ResponseView, STATUS_NOT_FOUND,
    STATUS_OK,
};
use crate::router::{answers, route_of, Method, Route, HEALTH_PATH};
use vstd::prelude::*;

verus! {

/// No reading holds a character that JSON escapes.
pub proof fn lemma_readings_are_plain()
    ensures
        forall|i: int| 0 <= i < 20 ==> is_plain(#[trigger] readings()[i]),
{
    reveal_strlit("It is certain");
    reveal_strlit("It is decidedly so");
    reveal_strlit("Without a doubt");
    reveal_strlit("Yes definitely");
    reveal_strlit("You may rely on it");
    reveal_strlit("As I see it, yes");
    reveal_strlit("Most likely");
    reveal_strlit("Outlook good");
    reveal_strlit("Yes");
    reveal_strlit("Signs point to yes");
    reveal_strlit("Don't count on it");
    reveal_strlit("My reply is no");
    reveal_strlit("My sources say no");
    reveal_strlit("Outlook not so good");
    reveal_strlit("Very doubtful");
    reveal_strlit("Reply hazy, try again");
    reveal_strlit("Ask again later");
    reveal_strlit("Better not tell you now");
    reveal_strlit("Cannot predict now");
    reveal_strlit("Concentrate and ask again");
    assert(is_plain(readings()[0]));
    assert(is_plain(readings()[1]));
    assert(is_plain(readings()[2]));
    assert(is_plain(readings()[3]));
    assert(is_plain(readings()[4]));
    assert(is_plain(readings()[5]));
    assert(is_plain(readings()[6]));
    assert(is_plain(readings()[7]));
    assert(is_plain(readings()[8]));
    assert(is_plain(readings()[9]));
    assert(is_plain(readings()[10]));
    assert(is_plain(readings()[11]));
    assert(is_plain(readings()[12]));
    assert(is_plain(readings()[13]));
    assert(is_plain(readings()[14]));
    assert(is_plain(readings()[15]));
    assert(is_plain(readings()[16]));
    assert(is_plain(readings()[17]));
    assert(is_plain(readings()[18]));
    assert(is_plain(readings()[19]));
}

/// The body that carries a reading is the object with the one member
/// `reading`, whose value is the reading itself between double quotes.
pub proof fn lemma_prediction_body(reading: Seq<char>)
    requires
        is_reading(reading),
    ensures
        prediction_response(reading).body == "{\"reading\":\""@ + reading + "\"}"@,
{
    lemma_readings_are_plain();
    reveal_strlit("{\"reading\":");
    reveal_strlit("}");
    reveal_strlit("{\"reading\":\"");
    reveal_strlit("\"}");
    assert(prediction_response(reading).body =~= "{\"reading\":\""@ + reading + "\"}"@);
}

/// The body of the answer to a liveness probe.
pub proof fn lemma_health_body()
    ensures
        health_response().body == "{\"status\":\"ok\",\"service\":\"magic-ball-server\"}"@,
{
    reveal_strlit("ok");
    reveal_strlit("magic-ball-server");
    reveal_strlit("{\"status\":");
    reveal_strlit(",\"service\":");
    reveal_strlit("}");
    reveal_strlit("{\"status\":\"ok\",\"service\":\"magic-ball-server\"}");
    assert(is_plain("ok"@));
    assert(is_plain("magic-ball-server"@));
    assert(health_response().body
        =~= "{\"status\":\"ok\",\"service\":\"magic-ball-server\"}"@);
}

/// The body of the answer to a request that no route matches.
pub proof fn lemma_not_found_body()
    ensures
        not_found_response().body
            == "{\"error\":\"Not found\",\"message\":\"Available endpoints: /api, /health\"}"@,
{
    reveal_strlit("Not found");
    reveal_strlit("Available endpoints: /api, /health");
    reveal_strlit("{\"error\":");
    reveal_strlit(",\"message\":");
    reveal_strlit("}");
    reveal_strlit("{\"error\":\"Not found\",\"message\":\"Available endpoints: /api, /health\"}");
    assert(is_plain("Not found"@));
    assert(is_plain("Available endpoints: /api, /health"@));
    assert(not_found_response().body
        =~= "{\"error\":\"Not found\",\"message\":\"Available endpoints: /api, /health\"}"@);
}

/// Every answer, served or not, carries the content type and the three
/// fields that open the service to scripts of other origins.
pub proof fn lemma_every_answer_has_common_fields(
    method: Method,
    path: Seq<char>,
    response: ResponseView,
)
    requires
        answers(method, path, response),
    ensures
        field(response.fields, CONTENT_TYPE@) == Some(JSON_CONTENT@),
        field(response.fields, ALLOW_ORIGIN@) == Some(ANY_ORIGIN@),
        field(response.fields, ALLOW_METHODS@) == Some(ALLOWED_METHODS@),
        field(response.fields, ALLOW_HEADERS@) == Some(ALLOWED_HEADERS@),
        response.fields.dom().len() == 4,
{
    lemma_common_fields();
}

/// A request is refused exactly where no route matches it; every other
/// request is served.
pub proof fn lemma_status(method: Method, path: Seq<char>, response: ResponseView)
    requires
        answers(method, path, response),
    ensures
        route_of(method, path) == Route::NotFound ==> response.status == STATUS_NOT_FOUND,
        route_of(method, path) != Route::NotFound ==> response.status == STATUS_OK,
{
}

/// A preflight request is served on every path, with an empty body and the
/// three fields that open the service to scripts of other origins.
pub proof fn lemma_preflight_on_any_path(path: Seq<char>, response: ResponseView)
    requires
        answers(Method::Options, path, response),
    ensures
        response.status == STATUS_OK,
        response.body == Seq::<char>::empty(),
        field(response.fields, ALLOW_ORIGIN@) == Some(ANY_ORIGIN@),
        field(response.fields, ALLOW_METHODS@) == Some(ALLOWED_METHODS@),
        field(response.fields, ALLOW_HEADERS@) == Some(ALLOWED_HEADERS@),
{
    lemma_common_fields();
}

/// A liveness probe has one answer, whatever was asked before.
pub proof fn lemma_health_is_constant(first: ResponseView, second: ResponseView)
    requires
        answers(Method::Get, HEALTH_PATH@, first),
        answers(Method::Get, HEALTH_PATH@, second),
    ensures
        first == second,
        first.status == STATUS_OK,
        first.body == "{\"status\":\"ok\",\"service\":\"magic-ball-server\"}"@,
{
    lemma_health_body();
}

/// Where the ball is asked, the answer is served and its body carries one of
/// the readings, and nothing else.
pub proof fn lemma_prediction_carries_a_reading(
    method: Method,
    path: Seq<char>,
    response: ResponseView,
)
    requires
        answers(method, path, response),
        route_of(method, path) == Route::Prediction,
    ensures
        response.status == STATUS_OK,
        exists|reading: Seq<char>|
            is_reading(reading) && response.body == "{\"reading\":\""@ + reading + "\"}"@,
{
    let i = choose|i: int| 0 <= i < 20 && response == prediction_response(#[trigger] readings()[i]);
    lemma_prediction_body(readings()[i]);
    assert(is_reading(readings()[i]));
}

/// The paths count for `GET` alone: under any method but `GET` and `OPTIONS`
/// no route matches, whatever the path.
pub proof fn lemma_routes_are_for_get(method: Method, path: Seq<char>, response: ResponseView)
    requires
        method != Method::Get,
        method != Method::Options,
        answers(method, path, response),
    ensures
        route_of(method, path) == Route::NotFound,
        response == not_found_response(),
{
}

} // verus!
