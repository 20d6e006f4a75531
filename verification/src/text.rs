//! Text utilities: ASCII-case-insensitive comparison of strings, and
//! decoding raw header bytes into a string.

use vstd::prelude::*;
use vstd::string::StrSliceExecFns;
use vstd::utf8::{decode_utf8, encode_utf8, valid_utf8};

verus! {

/// An ASCII upper-case letter mapped to its lower-case form; any other
/// byte unchanged.
pub open spec fn lower_byte(b: u8) -> u8 {
    if 65 <= b && b <= 90 {
        (b + 32) as u8
    } else {
        b
    }
}

/// Byte sequences equal after ASCII case folding.
pub open spec fn bytes_eq_nocase(a: Seq<u8>, b: Seq<u8>) -> bool {
    a.len() == b.len() && forall|i: int| 0 <= i < a.len() ==> lower_byte(a[i]) == lower_byte(b[i])
}

/// Strings whose UTF-8 encodings are equal after ASCII case folding.
/// Non-ASCII characters must match exactly; only the 26 ASCII letters
/// fold.
pub open spec fn str_eq_nocase(a: Seq<char>, b: Seq<char>) -> bool {
    bytes_eq_nocase(encode_utf8(a), encode_utf8(b))
}

fn lower_byte_exec(b: u8) -> (r: u8)
    ensures
        r == lower_byte(b),
{
    if 65 <= b && b <= 90 {
        b + 32
    } else {
        b
    }
}

/// Compare two strings ignoring ASCII case.
pub fn eq_nocase(a: &str, b: &str) -> (r: bool)
    ensures
        r == str_eq_nocase(a@, b@),
{
    let av = a.as_bytes_vec();
    let bv = b.as_bytes_vec();
    if av.len() != bv.len() {
        return false;
    }
    let n = av.len();
    for i in 0..n
        invariant
            n == av.len() == bv.len(),
            av@ == encode_utf8(a@),
            bv@ == encode_utf8(b@),
            forall|j: int| 0 <= j < i ==> lower_byte(av@[j]) == lower_byte(bv@[j]),
    {
        if lower_byte_exec(av[i]) != lower_byte_exec(bv[i]) {
            return false;
        }
    }
    true
}

/// Relies on `String::from_utf8`: it succeeds exactly when the input is
/// valid UTF-8, and the returned string is the one those bytes encode.
#[verifier::external_body]
pub(crate) fn bytes_to_string(v: Vec<u8>) -> (r: Option<String>)
    ensures
        r is Some <==> valid_utf8(v@),
        r matches Some(s) ==> s@ == decode_utf8(v@),
{
    String::from_utf8(v).ok()
}

} // verus!
