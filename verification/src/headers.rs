//! The header fields of a response, kept in hyper's `HeaderMap`.

use hyper::header::HeaderValue;
use hyper::HeaderMap;
use vstd::prelude::*;

verus! {

/// `http::header::HeaderValue`, the value of one header field.
#[verifier::external_type_specification]
#[verifier::external_body]
pub struct ExHeaderValue(HeaderValue);

/// `http::header::HeaderMap`, the multimap from field names to values.
#[verifier::external_type_specification]
#[verifier::external_body]
#[verifier::reject_recursive_types(T)]
pub struct ExHeaderMap<T>(HeaderMap<T>);

/// What a header map holds: each field name in it, in lower case as the map
/// stores names, with the text of the value that a lookup of the name gives.
pub uninterp spec fn header_fields(headers: HeaderMap<HeaderValue>) -> Map<Seq<char>, Seq<char>>;

/// The most names that a map may hold when one more field is put into it.
/// The map itself gives up far later, at 32768 slots.
pub const MAX_FIELDS: usize = 64;

/// The lower-case form of an ASCII letter; any other character unchanged.
pub open spec fn lower_char(c: char) -> char {
    if 'A' <= c && c <= 'Z' {
        ((c as u8 + 32) as u8) as char
    } else {
        c
    }
}

/// `name` with its ASCII letters in lower case.
pub open spec fn lowercase(name: Seq<char>) -> Seq<char> {
    Seq::new(name.len(), |i: int| lower_char(name[i]))
}

/// A character that every field name may hold: an ASCII letter, a digit or
/// the hyphen.
pub open spec fn is_name_char(c: char) -> bool {
    ('a' <= c && c <= 'z') || ('A' <= c && c <= 'Z') || ('0' <= c && c <= '9') || c == '-'
}

/// A field name that the map takes as it is written: between 1 and 64
/// characters, each a letter, a digit or the hyphen.
pub open spec fn is_field_name(name: Seq<char>) -> bool {
    &&& 1 <= name.len() <= 64
    &&& forall|i: int| 0 <= i < name.len() ==> is_name_char(#[trigger] name[i])
}

/// A field value of visible ASCII characters and spaces.
pub open spec fn is_field_value(value: Seq<char>) -> bool {
    forall|i: int| 0 <= i < value.len() ==> ' ' <= #[trigger] value[i] && value[i] <= '~'
}

/// No fields at all.
pub open spec fn no_fields() -> Map<Seq<char>, Seq<char>> {
    Map::empty()
}

/// `HeaderMap::new`: a map without fields.
#[verifier::external_body]
fn new_header_map() -> (headers: HeaderMap<HeaderValue>)
    ensures
        header_fields(headers) == no_fields(),
{
    HeaderMap::new()
}

/// `HeaderMap::insert` with a value made by `HeaderValue::from_static`: the
/// field `name`, stored in lower case, now has `value` and no other value;
/// the other fields stay. Both calls panic on characters outside those that
/// [`is_field_name`] and [`is_field_value`] admit, and the map panics when it
/// outgrows its limit, so all three are asked of the caller.
#[verifier::external_body]
fn insert_field(headers: &mut HeaderMap<HeaderValue>, name: &'static str, value: &'static str)
    requires
        is_field_name(name@),
        is_field_value(value@),
        header_fields(*old(headers)).dom().finite(),
        header_fields(*old(headers)).dom().len() < MAX_FIELDS,
    ensures
        header_fields(*final(headers)) == header_fields(*old(headers)).insert(
            lowercase(name@),
            value@,
        ),
{
    headers.insert(name, HeaderValue::from_static(value));
}

/// The value of the field `name` in `fields`, whatever the case of the
/// letters in `name`.
pub open spec fn field(fields: Map<Seq<char>, Seq<char>>, name: Seq<char>) -> Option<Seq<char>> {
    if fields.contains_key(lowercase(name)) {
        Some(fields[lowercase(name)])
    } else {
        None
    }
}

/// The field that names the origins whose scripts may call the service.
pub const ALLOW_ORIGIN: &'static str = "Access-Control-Allow-Origin";

/// The field that names the methods open to such scripts.
pub const ALLOW_METHODS: &'static str = "Access-Control-Allow-Methods";

/// The field that names the request fields open to such scripts.
pub const ALLOW_HEADERS: &'static str = "Access-Control-Allow-Headers";

/// The field that names the kind of the body.
pub const CONTENT_TYPE: &'static str = "Content-Type";

/// Every origin.
pub const ANY_ORIGIN: &'static str = "*";

/// The methods open to scripts of other origins.
pub const ALLOWED_METHODS: &'static str = "GET, POST, OPTIONS";

/// The request fields open to scripts of other origins.
pub const ALLOWED_HEADERS: &'static str = "Content-Type";

/// The kind of every body that the service sends.
pub const JSON_CONTENT: &'static str = "application/json";

/// The fields that every response carries: the three that open the service to
/// scripts of other origins, and the content type.
pub open spec fn common_fields() -> Map<Seq<char>, Seq<char>> {
    no_fields().insert(lowercase(ALLOW_ORIGIN@), ANY_ORIGIN@).insert(
        lowercase(ALLOW_METHODS@),
        ALLOWED_METHODS@,
    ).insert(lowercase(ALLOW_HEADERS@), ALLOWED_HEADERS@).insert(
        lowercase(CONTENT_TYPE@),
        JSON_CONTENT@,
    )
}

/// A header map with the fields that every response carries.
pub fn common_headers() -> (headers: HeaderMap<HeaderValue>)
    ensures
        header_fields(headers) == common_fields(),
{
    let mut headers = new_header_map();
    proof {
        reveal_strlit("Access-Control-Allow-Origin");
        reveal_strlit("Access-Control-Allow-Methods");
        reveal_strlit("Access-Control-Allow-Headers");
        reveal_strlit("Content-Type");
        reveal_strlit("*");
        reveal_strlit("GET, POST, OPTIONS");
        reveal_strlit("application/json");
    }
    insert_field(&mut headers, ALLOW_ORIGIN, ANY_ORIGIN);
    insert_field(&mut headers, ALLOW_METHODS, ALLOWED_METHODS);
    insert_field(&mut headers, ALLOW_HEADERS, ALLOWED_HEADERS);
    insert_field(&mut headers, CONTENT_TYPE, JSON_CONTENT);
    headers
}

/// The common fields are four, each under its own name, and a lookup finds
/// each of them with the value that the service sends.
pub proof fn lemma_common_fields()
    ensures
        common_fields().dom().finite(),
        common_fields().dom().len() == 4,
        field(common_fields(), ALLOW_ORIGIN@) == Some(ANY_ORIGIN@),
        field(common_fields(), ALLOW_METHODS@) == Some(ALLOWED_METHODS@),
        field(common_fields(), ALLOW_HEADERS@) == Some(ALLOWED_HEADERS@),
        field(common_fields(), CONTENT_TYPE@) == Some(JSON_CONTENT@),
{
    reveal_strlit("Access-Control-Allow-Origin");
    reveal_strlit("Access-Control-Allow-Methods");
    reveal_strlit("Access-Control-Allow-Headers");
    reveal_strlit("Content-Type");
    let origin = lowercase(ALLOW_ORIGIN@);
    let methods = lowercase(ALLOW_METHODS@);
    let headers = lowercase(ALLOW_HEADERS@);
    let content = lowercase(CONTENT_TYPE@);
    assert(origin.len() == 27 && methods.len() == 28 && headers.len() == 28 && content.len() == 12);
    assert(methods[21] == 'm' && headers[21] == 'h');
}

} // verus!
