//! Turning the raw request bytes into text.
//!
//! The request buffer is accepted only if it is valid UTF-8, as the
//! protocol reads the line as text before splitting it into tokens.

use vstd::prelude::*;

verus! {

/// What UTF-8 decoding yields on a byte sequence: `None` where the bytes
/// are not valid UTF-8, otherwise the decoded characters. The result is a
/// function of the bytes alone.
pub uninterp spec fn utf8_decode(bytes: Seq<u8>) -> Option<Seq<char>>;

/// Relies on `str::from_utf8`: it accepts exactly the valid UTF-8 byte
/// sequences and yields the decoded text; the result depends on the bytes
/// alone.
#[verifier::external_body]
pub fn utf8_to_chars(bytes: &Vec<u8>) -> (r: Option<Vec<char>>)
    ensures
        r is Some <==> utf8_decode(bytes@) is Some,
        r matches Some(v) ==> utf8_decode(bytes@) == Some(v@),
{
    match std::str::from_utf8(bytes.as_slice()) {
        Ok(text) => Some(text.chars().collect()),
        Err(_) => None,
    }
}

} // verus!
