//! Text received from plug-ins: C strings arrive as raw bytes and are decoded as UTF-8.

use vstd::prelude::*;
use vstd::utf8::{decode_utf8, valid_utf8};

verus! {

/// The text that a byte string spells, or `None` when the bytes are not valid UTF-8.
pub open spec fn utf8_text(bytes: Seq<u8>) -> Option<Seq<char>> {
    if valid_utf8(bytes) {
        Some(decode_utf8(bytes))
    } else {
        None
    }
}

/// Calls `std::str::from_utf8` and copies the borrowed text into a `String`.
///
/// Trusted: `from_utf8` succeeds exactly on valid UTF-8 and then spells the
/// characters that the bytes encode; this contract claims no more than that.
#[verifier::external_body]
fn from_utf8_owned(bytes: &[u8]) -> (r: Option<String>)
    ensures
        match r {
            Some(s) => utf8_text(bytes@) == Some(s@),
            None => utf8_text(bytes@) is None,
        },
{
    match std::str::from_utf8(bytes) {
        Ok(s) => Some(s.to_string()),
        Err(_) => None,
    }
}

/// Decodes the bytes of a C string (without its terminating NUL) as UTF-8.
pub fn decode_c_text(bytes: &[u8]) -> (r: Option<String>)
    ensures
        match r {
            Some(s) => utf8_text(bytes@) == Some(s@),
            None => utf8_text(bytes@) is None,
        },
{
    from_utf8_owned(bytes)
}

/// Compares a string with a literal by content.
pub fn text_is(s: &String, literal: &str) -> (r: bool)
    ensures
        r == (s@ == literal@),
{
    let other: String = literal.to_owned();
    *s == other
}

} // verus!
