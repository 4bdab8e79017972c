//! Trusted access to std text operations that vstd leaves unspecified.

use vstd::prelude::*;

verus! {

/// What core::str::from_utf8 yields on a byte sequence: the characters the
/// bytes decode to, or `None` where they are not valid UTF-8.
pub uninterp spec fn utf8_decode(bytes: Seq<u8>) -> Option<Seq<char>>;

/// Relies on core::str::from_utf8: decoding succeeds or fails on the bytes
/// alone and yields the characters they encode.
#[verifier::external_body]
pub fn decode_utf8(bytes: &Vec<u8>) -> (r: Option<String>)
    ensures
        match r {
            Some(s) => utf8_decode(bytes@) == Some(s@),
            None => utf8_decode(bytes@) is None,
        },
{
    core::str::from_utf8(bytes.as_slice()).ok().map(String::from)
}

/// Relies on str's PartialEq: two string slices are equal iff their
/// character sequences are.
#[verifier::external_body]
pub fn str_eq(a: &str, b: &str) -> (r: bool)
    ensures
        r == (a@ == b@),
{
    a == b
}

/// Whether a character counts as Unicode whitespace, as char::is_whitespace
/// reports it.
pub uninterp spec fn unicode_whitespace(c: char) -> bool;

/// Relies on char::is_whitespace: the answer depends on the character alone.
#[verifier::external_body]
pub fn char_is_whitespace(c: char) -> (r: bool)
    ensures
        r == unicode_whitespace(c),
{
    c.is_whitespace()
}

} // verus!
