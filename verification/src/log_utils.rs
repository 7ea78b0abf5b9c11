//! Describing C strings for log messages.

use vstd::prelude::*;
use vstd::string::StrSliceExecFns;

use crate::text::{decode_c_text, utf8_text};

verus! {

/// The lowercase hexadecimal digits of `n`, most significant first, without
/// leading zeros (a single `0` for zero).
pub open spec fn hex_digits(n: nat) -> Seq<char>
    decreases n,
{
    if n < 16 {
        seq!["0123456789abcdef"@[n as int]]
    } else {
        hex_digits(n / 16) + seq!["0123456789abcdef"@[(n % 16) as int]]
    }
}

/// Appends the hexadecimal digits of `n` to `s`.
fn push_hex(s: &mut String, n: usize)
    ensures
        final(s)@ == old(s)@ + hex_digits(n as nat),
    decreases n,
{
    let digits = "0123456789abcdef";
    proof {
        reveal_strlit("0123456789abcdef");
    }
    if n >= 16 {
        push_hex(s, n / 16);
    }
    let d = n % 16;
    let one = digits.substring_char(d, d + 1);
    s.append(one);
    assert(one@ =~= seq![digits@[d as int]]);
}

/// How a C string reads in a log message: its text, `<null>` for a NULL
/// pointer, or a note with its address when it is not valid UTF-8.
pub open spec fn spec_c_str_to_str(text: Option<Seq<u8>>, address: nat) -> Seq<char> {
    match text {
        None => "<null>"@,
        Some(b) => match utf8_text(b) {
            Some(s) => s,
            None => "<invalid utf-8> (0x"@ + hex_digits(address) + ")"@,
        },
    }
}

/// How a C string reads in a log message; `text` holds its bytes, or nothing
/// for a NULL pointer, and `address` is where it lies.
pub fn c_str_to_str(text: Option<&[u8]>, address: usize) -> (r: String)
    ensures
        r@ == spec_c_str_to_str(
            match text {
                Some(b) => Some(b@),
                None => None,
            },
            address as nat,
        ),
{
    match text {
        None => "<null>".to_owned(),
        Some(bytes) => match decode_c_text(bytes) {
            Some(s) => s,
            None => {
                let mut out: String = "<invalid utf-8> (0x".to_owned();
                push_hex(&mut out, address);
                out.append(")");
                out
            },
        },
    }
}

} // verus!
