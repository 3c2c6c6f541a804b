//! The JSON string grammar, as serde_json implements it.
use vstd::prelude::*;

verus! {

#[verifier::external_type_specification]
#[verifier::external_body]
pub struct ExJsonError(serde_json::Error);

/// A character that a JSON string holds as itself, with no escape: printable
/// ASCII other than the quotation mark and the backslash.
pub open spec fn is_plain_char(c: char) -> bool {
    ' ' <= c && c <= '~' && c != '"' && c != '\\'
}

/// Text made of plain characters only.
pub open spec fn is_plain_text(s: Seq<char>) -> bool {
    forall|i: int| 0 <= i < s.len() ==> is_plain_char(#[trigger] s[i])
}

/// The bytes of plain text: one byte per character.
pub open spec fn is_plain_bytes(b: Seq<u8>) -> bool {
    forall|i: int| 0 <= i < b.len() ==> is_plain_char((#[trigger] b[i]) as char)
}

/// The characters of ASCII bytes.
pub open spec fn ascii_chars(b: Seq<u8>) -> Seq<char> {
    b.map_values(|x: u8| x as char)
}

/// The bytes of ASCII characters.
pub open spec fn ascii_bytes(s: Seq<char>) -> Seq<u8> {
    s.map_values(|c: char| c as u8)
}

/// Text between two quotation marks.
pub open spec fn quoted(s: Seq<char>) -> Seq<char> {
    seq!['"'] + s + seq!['"']
}

/// Bytes between two quotation marks.
pub open spec fn quoted_bytes(b: Seq<u8>) -> Seq<u8> {
    seq![34u8] + b + seq![34u8]
}

/// What a JSON document made of one string value decodes to, or `None` where
/// the bytes are not such a document.
pub uninterp spec fn json_string_value(b: Seq<u8>) -> Option<Seq<char>>;

/// Relies on `serde_json::to_string` for a `str`: it writes the string between
/// quotation marks, escaping only `"`, `\` and control characters, into a
/// `Vec`, which cannot fail.
#[verifier::external_body]
pub(crate) fn json_string_literal(s: &str) -> (r: Result<String, serde_json::Error>)
    ensures
        is_plain_text(s@) ==> r is Ok && r->Ok_0@ == quoted(s@),
{
    serde_json::to_string(s)
}

/// Relies on `serde_json::from_slice` for a `String`: it decodes a JSON string
/// value, which is a function of the bytes alone; a quoted run of plain
/// characters decodes to those characters.
#[verifier::external_body]
pub(crate) fn json_string_from_slice(b: &[u8]) -> (r: Result<String, serde_json::Error>)
    ensures
        r is Ok <==> json_string_value(b@) is Some,
        r is Ok ==> Some(r->Ok_0@) == json_string_value(b@),
        b@.len() >= 2 && b@[0] == 34u8 && b@[b@.len() - 1] == 34u8 && is_plain_bytes(
            b@.subrange(1, b@.len() - 1),
        ) ==> r is Ok && r->Ok_0@ == ascii_chars(b@.subrange(1, b@.len() - 1)),
{
    serde_json::from_slice::<String>(b)
}

} // verus!
