//! Lossy text decoding of the bytes the backend writes.
//!
//! The supervisor never rejects a line of backend output: invalid UTF-8 byte
//! sequences are replaced, never fatal.  The decoding itself is done by the
//! standard library; its result is named here so that contracts can speak of
//! it exactly.

use vstd::prelude::*;

verus! {

/// The text that lossy UTF-8 decoding yields for a byte sequence: a function
/// of the bytes alone.
pub uninterp spec fn lossy_utf8(bytes: Seq<u8>) -> Seq<char>;

/// Relies on `String::from_utf8_lossy` of the standard library: the result
/// depends only on the bytes, and invalid UTF-8 sequences come back as
/// replacement characters rather than as an error.
#[verifier::external_body]
pub fn decode_lossy(bytes: &[u8]) -> (r: String)
    ensures
        r@ == lossy_utf8(bytes@),
{
    String::from_utf8_lossy(bytes).into_owned()
}

} // verus!
