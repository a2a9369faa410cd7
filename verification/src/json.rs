//! JSON text for the bodies of the responses.

use vstd::prelude::*;

verus! {

/// `serde_json::Error`, the error type of the serializer.
#[verifier::external_type_specification]
#[verifier::external_body]
pub struct ExJsonError(serde_json::Error);

/// The JSON text that `serde_json::to_string` writes for the string `text`:
/// the string between double quotes, with the escapes that JSON asks for.
pub uninterp spec fn json_string(text: Seq<char>) -> Seq<char>;

/// A character that JSON lets stand unescaped inside a string: neither a
/// control character, nor the double quote, nor the backslash.
pub open spec fn is_plain_char(c: char) -> bool {
    c as u32 >= 0x20 && c != '"' && c != '\\'
}

/// A text made of plain characters only.
pub open spec fn is_plain(text: Seq<char>) -> bool {
    forall|i: int| 0 <= i < text.len() ==> is_plain_char(#[trigger] text[i])
}

/// `text` between double quotes.
pub open spec fn quoted(text: Seq<char>) -> Seq<char> {
    seq!['"'] + text + seq!['"']
}

/// `serde_json::to_string` on a string slice. The serializer fails only where
/// a value refuses to be written or a map has a key that is no string, and it
/// writes into memory, so for a string the result is always `Ok`. It holds the
/// string's JSON text, which for a text of plain characters is the text itself
/// between double quotes: the serializer escapes control characters, the
/// double quote and the backslash, and nothing else.
#[verifier::external_body]
fn to_json_string(text: &str) -> (r: Result<String, serde_json::Error>)
    ensures
        r is Ok,
        r->Ok_0@ == json_string(text@),
        is_plain(text@) ==> r->Ok_0@ == quoted(text@),
{
    serde_json::to_string(text)
}

/// The JSON text of the string `text`: the text between double quotes where
/// it is plain, and otherwise what the serializer writes for it.
pub open spec fn json_text(text: Seq<char>) -> Seq<char> {
    if is_plain(text) {
        quoted(text)
    } else {
        json_string(text)
    }
}

/// The JSON text of the string `text`.
pub fn json_quote(text: &str) -> (r: String)
    ensures
        r@ == json_text(text@),
{
    to_json_string(text).unwrap()
}

} // verus!
