//! Standard Ed25519 verification of a group signature.

use vstd::prelude::*;
use crate::codec::b64_bytes_of;
use crate::codec::decode_base64;
use crate::errors::TssError;
use crate::errors::TssField;
use crate::frost_api::VerifyOutcome;
use crate::frost_api::ed25519_verifies;
use crate::frost_api::decode_pubkey_package;
use crate::frost_api::pkg_group_key;
use crate::frost_api::sig_decodable;
use crate::frost_api::verify_raw;
use crate::types::VerifyRequest;
use vstd::utf8::encode_utf8;

verus! {

/// The exact outcome of `verify_signature`, as a function of the request:
/// `Ok` of the Ed25519 verdict once every encoding decodes, and otherwise
/// the error naming the first field (in checking order: base64 text,
/// signature length, public key package, signature bytes) that failed.
pub open spec fn spec_verify_outcome(msg: Seq<char>, sig_b64: Seq<char>, pkg: Seq<u8>) -> Result<
    bool,
    TssError,
> {
    if b64_bytes_of(sig_b64) is None {
        Err(TssError::Deserialization(TssField::SignatureEncoding))
    } else {
        let sig = b64_bytes_of(sig_b64).unwrap();
        if sig.len() != 64 {
            Err(TssError::SignatureLength(sig.len() as usize))
        } else if pkg_group_key(pkg) is None {
            Err(TssError::Deserialization(TssField::PublicKeyPackage))
        } else if !sig_decodable(sig) {
            Err(TssError::Deserialization(TssField::Signature))
        } else {
            Ok(ed25519_verifies(pkg_group_key(pkg).unwrap(), encode_utf8(msg), sig))
        }
    }
}

/// Check `request.signature_base64` against `request.message` and the
/// group public key held in `request.public_key_package`, by standard
/// Ed25519 verification.
///
/// A well-formed but wrong signature gives `Ok(false)`, never an error;
/// an input whose encoding is rejected gives the error naming that field,
/// exactly as `spec_verify_outcome` lays out.
pub fn verify_signature(request: VerifyRequest) -> (r: Result<bool, TssError>)
    ensures
        r == spec_verify_outcome(
            request.message@,
            request.signature_base64@,
            request.public_key_package@,
        ),
{
    let sig_bytes = match decode_base64(request.signature_base64.as_str()) {
        Ok(v) => v,
        Err(_) => {
            return Err(TssError::Deserialization(TssField::SignatureEncoding));
        },
    };
    if sig_bytes.len() != 64 {
        return Err(TssError::SignatureLength(sig_bytes.len()));
    }
    let group_key = match decode_pubkey_package(&request.public_key_package) {
        Ok(triple) => triple.1,
        Err(_) => {
            return Err(TssError::Deserialization(TssField::PublicKeyPackage));
        },
    };
    match verify_raw(&group_key, request.message.as_str().as_bytes(), &sig_bytes) {
        VerifyOutcome::Valid => Ok(true),
        VerifyOutcome::Invalid => Ok(false),
        VerifyOutcome::BadSig => Err(TssError::Deserialization(TssField::Signature)),
        VerifyOutcome::BadKey => Err(TssError::Deserialization(TssField::PublicKeyPackage)),
    }
}

} // verus!
