//! Header values of an HTTP reply, read as text.
//!
//! What counts as a header value, and which header values are text, is
//! decided by the HTTP library and not here: this module calls it, and
//! states what it does.

use vstd::prelude::*;
use reqwest::header::HeaderValue;

verus! {

#[verifier::external_type_specification]
#[verifier::external_body]
pub struct ExHeaderValue(HeaderValue);

/// The bytes that a header value holds.
pub uninterp spec fn header_bytes(value: HeaderValue) -> Seq<u8>;

/// A byte that may stand in a header value: no control character but the
/// tab.
pub open spec fn is_header_byte(b: u8) -> bool {
    b >= 32 && b != 127 || b == 9
}

/// A byte that is a visible ASCII character, a space or a tab.
pub open spec fn is_text_byte(b: u8) -> bool {
    32 <= b < 127 || b == 9
}

/// Every byte may stand in a header value.
pub open spec fn is_header(bytes: Seq<u8>) -> bool {
    forall|i: int| 0 <= i < bytes.len() ==> is_header_byte(#[trigger] bytes[i])
}

/// Every byte is a text byte.
pub open spec fn is_text(bytes: Seq<u8>) -> bool {
    forall|i: int| 0 <= i < bytes.len() ==> is_text_byte(#[trigger] bytes[i])
}

/// The characters that ASCII bytes stand for.
pub open spec fn ascii_chars(bytes: Seq<u8>) -> Seq<char> {
    bytes.map_values(|b: u8| b as char)
}

/// Calls `HeaderValue::from_bytes`. It accepts exactly the byte strings in
/// which every byte is 32 or more and not 127, or is the tab, and the value
/// it makes holds a copy of those bytes. This is taken from the HTTP
/// library's source and not proved.
#[verifier::external_body]
fn parse_header_value(bytes: &[u8]) -> (r: Option<HeaderValue>)
    ensures
        r is Some <==> is_header(bytes@),
        r matches Some(value) ==> header_bytes(value) == bytes@,
{
    HeaderValue::from_bytes(bytes).ok()
}

/// Calls `HeaderValue::to_str`. It succeeds exactly on the values in which
/// every byte is between 32 and 126, or is the tab, and then yields those
/// bytes as text, one character for each byte. This is taken from the HTTP
/// library's source and not proved.
#[verifier::external_body]
fn header_value_text(value: &HeaderValue) -> (r: Option<String>)
    ensures
        r is Some <==> is_text(header_bytes(*value)),
        r matches Some(text) ==> text@ == ascii_chars(header_bytes(*value)),
{
    value.to_str().ok().map(String::from)
}

/// What the bytes of a header say as text: their characters where every
/// byte is a text byte, nothing otherwise.
pub open spec fn header_text(bytes: Seq<u8>) -> Option<Seq<char>> {
    if is_text(bytes) {
        Some(ascii_chars(bytes))
    } else {
        None
    }
}

/// Reads the bytes of a header as text.
pub fn read_header_text(bytes: &[u8]) -> (r: Option<String>)
    ensures
        crate::model::text_of(r) == header_text(bytes@),
{
    match parse_header_value(bytes) {
        Some(value) => header_value_text(&value),
        None => {
            proof {
                let i = choose|i: int| 0 <= i < bytes@.len() && !is_header_byte(#[trigger] bytes@[i]);
                assert(!is_text_byte(bytes@[i]));
            }
            None
        },
    }
}

} // verus!
