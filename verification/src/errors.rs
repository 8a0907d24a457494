//! Error taxonomy of the library.
//!
//! Every failure of `keygen`, `keysign` or `verify_signature` is reported
//! through [`TssError`]; an invalid-but-well-formed signature is not an
//! error, `verify_signature` returns `Ok(false)` for it.

use vstd::prelude::*;

verus! {

/// The field of an input whose bytes could not be decoded.
#[derive(Debug, Clone, Copy, PartialEq, Eq)]
pub enum TssField {
    /// A participant identifier (32-byte scalar encoding).
    Identifier,
    /// A serialized secret share.
    SecretShare,
    /// A serialized public key package.
    PublicKeyPackage,
    /// The base64 text carrying a signature.
    SignatureEncoding,
    /// The 64 signature bytes themselves.
    Signature,
}

/// Which of the two count parameters of key generation was rejected.
#[derive(Debug, Clone, Copy, PartialEq, Eq)]
pub enum ParamFault {
    /// `min_signers` is zero or above `max_signers`.
    MinSigners,
    /// `max_signers` is zero.
    MaxSigners,
}

/// Everything that can go wrong in this library.
#[derive(Debug, Clone, PartialEq, Eq)]
pub enum TssError {
    /// The threshold parameters of key generation are out of range.
    Parameter(ParamFault),
    /// The named field of an input could not be decoded.
    Deserialization(TssField),
    /// A signature of the wrong byte length was handed in.
    SignatureLength(usize),
    /// A secret share decoded but failed its verifiable-secret-sharing check.
    InvalidSecretShare,
    /// Round 2 was invoked with nonces or commitments that do not belong to
    /// the signing package of this session.
    ProtocolState,
    /// Fewer than the threshold number of signers took part.
    Threshold,
    /// Aggregation rejected individual signature shares; the serialized
    /// identifiers of the offending participants are named.
    ShareVerification { culprits: Vec<Vec<u8>> },
    /// The underlying cryptographic library failed in a way this library
    /// does not further distinguish (e.g. could not serialize a value).
    Internal,
}

impl TssError {
    /// A short human-readable description, in place of `Display`.
    pub fn describe(&self) -> String {
        match self {
            TssError::Parameter(ParamFault::MinSigners) => "min_signers must be at least 1 and not larger than max_signers".to_owned(),
            TssError::Parameter(ParamFault::MaxSigners) => "max_signers must be at least 1".to_owned(),
            TssError::Deserialization(TssField::Identifier) => "failed to deserialize an identifier".to_owned(),
            TssError::Deserialization(TssField::SecretShare) => "failed to deserialize a secret share".to_owned(),
            TssError::Deserialization(TssField::PublicKeyPackage) => "failed to deserialize the public key package".to_owned(),
            TssError::Deserialization(TssField::SignatureEncoding) => "failed to decode the base64 signature text".to_owned(),
            TssError::Deserialization(TssField::Signature) => "failed to deserialize the signature".to_owned(),
            TssError::SignatureLength(_) => "signature bytes are not the correct length".to_owned(),
            TssError::InvalidSecretShare => "a secret share failed its verification check".to_owned(),
            TssError::ProtocolState => "nonces or commitments do not match the signing package".to_owned(),
            TssError::Threshold => "fewer than min_signers signers took part".to_owned(),
            TssError::ShareVerification { culprits: _ } => "a signature share failed verification".to_owned(),
            TssError::Internal => "the underlying cryptographic library failed".to_owned(),
        }
    }
}

} // verus!
