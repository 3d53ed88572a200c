//! The base64 boundary.
//!
//! The protocol carries message bodies and credentials base64-encoded. The
//! encoding itself is done by an outside crate; its results are named here
//! and everything built on them is verified against those names.

use vstd::prelude::*;

verus! {

/// What the standard base64 encoding of a byte string is. The result depends
/// on the bytes alone.
pub uninterp spec fn b64_of(bytes: Seq<u8>) -> Seq<char>;

/// What standard base64 decoding makes of a character string: the decoded
/// bytes, or nothing when the string is not valid base64. The result depends
/// on the characters alone.
pub uninterp spec fn b64_decoded(text: Seq<char>) -> Option<Seq<u8>>;

/// Relies on base64's standard engine `encode`: encodes the bytes with the
/// standard alphabet and padding; the empty input encodes to the empty
/// string; and the standard engine's `decode` inverts it, so decoding the
/// encoding of any bytes yields those bytes back.
#[verifier::external_body]
pub(crate) fn base64_encode(bytes: &[u8]) -> (r: String)
    ensures
        r@ == b64_of(bytes@),
        bytes@.len() == 0 ==> r@.len() == 0,
        b64_decoded(r@) == Some(bytes@),
{
    base64::Engine::encode(&base64::prelude::BASE64_STANDARD, bytes)
}

/// Relies on base64's standard engine `decode`: yields the decoded bytes
/// exactly when the input is valid standard base64.
#[verifier::external_body]
pub(crate) fn base64_decode(text: &str) -> (r: Option<Vec<u8>>)
    ensures
        (r is Some) == (b64_decoded(text@) is Some),
        r matches Some(v) ==> b64_decoded(text@) == Some(v@),
{
    base64::Engine::decode(&base64::prelude::BASE64_STANDARD, text).ok()
}

} // verus!
