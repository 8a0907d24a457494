//! The plain-byte data carried between the caller and the protocol.
//!
//! Every cryptographic value crosses the library boundary as bytes: an
//! identifier as its 32-byte scalar encoding, shares and key packages in
//! their canonical serialization, signatures as 64 bytes (base64 text on
//! the wire). The structs here are those byte carriers.

use vstd::prelude::*;

verus! {

/// One participant's share of the group key: its identifier (32-byte scalar
/// encoding) and its serialized secret share.
///
/// A `KeyShard` is secret material. It belongs to exactly one participant
/// and must never be sent to other participants or to the aggregator.
#[derive(Debug, Clone, PartialEq, Eq)]
pub struct KeyShard {
    /// 32-byte canonical encoding of the participant's identifier.
    pub identifier: Vec<u8>,
    /// Canonical serialization of the participant's secret share.
    pub secret_share: Vec<u8>,
}

/// Everything `keygen` hands back: the `n` shards, the serialized public
/// key package, and the bare 32-byte group public key.
#[derive(Debug, Clone, PartialEq, Eq)]
pub struct KeygenResult {
    /// One shard per participant, ordered by identifier.
    pub key_shards: Vec<KeyShard>,
    /// Serialized group public key package (group key plus one verification
    /// share per participant). Free to distribute.
    pub public_key_package: Vec<u8>,
    /// The group public key alone: standard 32-byte Ed25519 encoding.
    pub group_public_key: Vec<u8>,
}

/// A request to sign `message` with the given shards, which must all stem
/// from the key generation that produced `public_key_package`.
#[derive(Debug, Clone, PartialEq, Eq)]
pub struct SignRequest {
    /// The message to sign, as text.
    pub message: String,
    /// The shards of the participants taking part; at least `min_signers`
    /// of the original shards are needed.
    pub key_shards: Vec<KeyShard>,
    /// The serialized public key package of the group.
    pub public_key_package: Vec<u8>,
}

/// A request to check one signature against one message and group key.
#[derive(Debug, Clone, PartialEq, Eq)]
pub struct VerifyRequest {
    /// The message the signature is claimed to cover.
    pub message: String,
    /// The 64 signature bytes, base64-encoded.
    pub signature_base64: String,
    /// The serialized public key package of the group.
    pub public_key_package: Vec<u8>,
}

} // verus!
