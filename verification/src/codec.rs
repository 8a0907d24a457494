//! Base64 transport encoding of signatures.
//!
//! Signatures travel as base64 text (standard alphabet, padded). The two
//! functions of the `base64` crate used here are deterministic, so their
//! results are named by uninterpreted spec functions; the round-trip fact
//! `b64_bytes_of(b64_chars_of(b)) == Some(b)` is what the rest of the
//! library builds on.

use vstd::prelude::*;
use base64::Engine;

verus! {

/// The standard, padded base64 text of a byte sequence, as the `base64`
/// crate's `STANDARD` engine produces it.
pub uninterp spec fn b64_chars_of(b: Seq<u8>) -> Seq<char>;

/// What the `STANDARD` engine's strict decode makes of a text: `Some` of
/// the decoded bytes for canonical base64, `None` for anything it rejects.
pub uninterp spec fn b64_bytes_of(s: Seq<char>) -> Option<Seq<u8>>;

/// Relies on `base64::engine::general_purpose::STANDARD.encode`: the text
/// depends on the bytes alone, and the same engine's decode, being strict
/// about padding and trailing bits, accepts exactly the texts it produces
/// and gives the bytes back.
#[verifier::external_body]
pub(crate) fn encode_base64(b: &Vec<u8>) -> (r: String)
    ensures
        r@ == b64_chars_of(b@),
        b64_bytes_of(r@) == Some(b@),
{
    base64::engine::general_purpose::STANDARD.encode(b)
}

/// Relies on `base64::engine::general_purpose::STANDARD.decode`: the
/// outcome depends on the text alone; non-canonical padding or trailing
/// bits are rejected.
#[verifier::external_body]
pub(crate) fn decode_base64(s: &str) -> (r: Result<Vec<u8>, ()>)
    ensures
        r is Ok <==> b64_bytes_of(s@) is Some,
        r matches Ok(v) ==> Some(v@) == b64_bytes_of(s@),
{
    match base64::engine::general_purpose::STANDARD.decode(s) {
        Ok(v) => Ok(v),
        Err(_) => Err(()),
    }
}

} // verus!
