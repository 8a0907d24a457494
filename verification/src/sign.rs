//! The two-round FROST signing protocol, run for all listed participants.
//!
//! `keysign` plays every role in one process: it re-derives each
//! participant's key package from its shard, runs round 1 (nonce
//! commitments) and round 2 (signature shares) for each, aggregates the
//! shares, and hands the group signature back base64-encoded. Running
//! all participants in one process is a demonstration arrangement: it
//! requires every secret shard to be present at once, which a deployment
//! should avoid by keeping each shard on its owner's machine and
//! exchanging only commitments, the signing package and signature
//! shares. The nonces of round 1 are single-use: round 2 consumes them.

use vstd::prelude::*;
use crate::codec::b64_bytes_of;
use crate::codec::b64_chars_of;
use crate::codec::encode_base64;
use crate::errors::TssError;
use crate::errors::TssField;
use crate::frost_api::AggregateFault;
use crate::frost_api::FrostCommitments;
use crate::frost_api::FrostIdentifier;
use crate::frost_api::FrostKeyPackage;
use crate::frost_api::FrostNonces;
use crate::frost_api::FrostSignatureShare;
use crate::frost_api::Round2Fault;
use crate::frost_api::VerifyOutcome;
use crate::frost_api::aggregate_signature;
use crate::frost_api::commit_with_key;
use crate::frost_api::ed25519_verifies;
use crate::frost_api::fresh_rng;
use crate::frost_api::id_clone;
use crate::frost_api::id_decodable;
use crate::frost_api::share_decodable;
use crate::frost_api::share_valid;
use crate::frost_api::id_from_bytes;
use crate::frost_api::key_package_from_bytes;
use crate::frost_api::new_signing_package;
use crate::frost_api::decode_pubkey_package;
use crate::frost_api::pkg_group_key;
use crate::frost_api::pkg_min_signers;
use crate::frost_api::round2_sign;
use crate::frost_api::sig_decodable;
use crate::frost_api::verify_raw;
use crate::frost_api::ShareFault;
use crate::types::KeyShard;
use crate::types::SignRequest;
use vstd::utf8::encode_utf8;

verus! {

/// The error one shard draws on its own, or `None` if it parses: its
/// identifier bytes must decode, its share bytes must decode, and the
/// decoded share must pass its verifiable-secret-sharing check — in that
/// order.
pub open spec fn shard_fault(s: KeyShard) -> Option<TssError> {
    if !id_decodable(s.identifier@) {
        Some(TssError::Deserialization(TssField::Identifier))
    } else if !share_decodable(s.secret_share@) {
        Some(TssError::Deserialization(TssField::SecretShare))
    } else if !share_valid(s.secret_share@) {
        Some(TssError::InvalidSecretShare)
    } else {
        None
    }
}

/// The first shard fault in request order, or `None` if every shard
/// parses.
pub open spec fn first_shard_fault(shards: Seq<KeyShard>) -> Option<TssError>
    decreases shards.len(),
{
    if shards.len() == 0 {
        None
    } else if shard_fault(shards.first()) is Some {
        shard_fault(shards.first())
    } else {
        first_shard_fault(shards.drop_first())
    }
}

/// Skipping a fault-free prefix does not change the first fault.
proof fn lemma_first_fault_skip(shards: Seq<KeyShard>, k: int)
    requires
        0 <= k <= shards.len(),
        forall|i: int| 0 <= i < k ==> shard_fault(#[trigger] shards[i]) is None,
    ensures
        first_shard_fault(shards) == first_shard_fault(shards.skip(k)),
    decreases k,
{
    if k > 0 {
        assert(shard_fault(shards.first()) is None);
        assert(forall|i: int|
            0 <= i < k - 1 ==> shard_fault(#[trigger] shards.drop_first()[i]) is None) by {
            assert(forall|i: int|
                0 <= i < k - 1 ==> shards.drop_first()[i] == shards[i + 1]);
        }
        lemma_first_fault_skip(shards.drop_first(), k - 1);
        assert(shards.drop_first().skip(k - 1) =~= shards.skip(k));
    } else {
        assert(shards.skip(0) =~= shards);
    }
}

/// Sign `request.message` with all shards listed in the request: derive
/// each participant's key package, run FROST rounds 1 and 2 for each,
/// aggregate the signature shares, and return the 64-byte group
/// signature base64-encoded.
///
/// On success the returned text is the base64 encoding of 64 signature
/// bytes that pass standard Ed25519 verification against the group key
/// held in `request.public_key_package` — aggregation itself checks this
/// before handing a signature out, and this function checks it again on
/// the byte level, so a success here is a signature `verify_signature`
/// accepts. A public key package that does not decode, or a shard whose
/// bytes are rejected, gives the error named for it (first failure in
/// request order wins). Taking part with fewer shards than the threshold
/// surfaces as `Threshold`; a signature share the aggregator rejects
/// names its sender in `ShareVerification`.
pub fn keysign(request: SignRequest) -> (r: Result<String, TssError>)
    ensures
        (r == Err::<String, TssError>(TssError::Deserialization(TssField::PublicKeyPackage)))
            <==> pkg_group_key(request.public_key_package@) is None,
        pkg_group_key(request.public_key_package@) is Some && first_shard_fault(
            request.key_shards@,
        ) is Some ==> r == Err::<String, TssError>(
            first_shard_fault(request.key_shards@).unwrap(),
        ),
        r is Ok ==> pkg_group_key(request.public_key_package@) is Some && first_shard_fault(
            request.key_shards@,
        ) is None,
        (r == Err::<String, TssError>(TssError::Deserialization(TssField::Identifier))
            || r == Err::<String, TssError>(TssError::Deserialization(TssField::SecretShare))
            || r == Err::<String, TssError>(TssError::InvalidSecretShare))
            ==> first_shard_fault(request.key_shards@) is Some,
        pkg_group_key(request.public_key_package@) is Some && first_shard_fault(
            request.key_shards@,
        ) is None && pkg_min_signers(request.public_key_package@) is Some
            && request.key_shards@.len() < pkg_min_signers(request.public_key_package@).unwrap()
            ==> r == Err::<String, TssError>(TssError::Threshold),
        r is Ok && pkg_min_signers(request.public_key_package@) is Some
            ==> request.key_shards@.len() >= pkg_min_signers(
            request.public_key_package@,
        ).unwrap(),
        r matches Ok(text) ==> exists|sig: Seq<u8>|
            {
                &&& sig.len() == 64
                &&& sig_decodable(sig)
                &&& #[trigger] ed25519_verifies(
                    pkg_group_key(request.public_key_package@).unwrap(),
                    encode_utf8(request.message@),
                    sig,
                )
                &&& text@ == b64_chars_of(sig)
                &&& b64_bytes_of(text@) == Some(sig)
            },
{
    let msg_bytes: &[u8] = request.message.as_str().as_bytes();

    let (pubkey_package, group_key, threshold) = match decode_pubkey_package(
        &request.public_key_package,
    ) {
        Ok(triple) => triple,
        Err(_) => {
            return Err(TssError::Deserialization(TssField::PublicKeyPackage));
        },
    };

    // Re-derive each participant's key material from its shard.
    let n: usize = request.key_shards.len();
    let mut participants: Vec<(FrostIdentifier, FrostKeyPackage)> = Vec::new();
    let mut idx: usize = 0;
    while idx < n
        invariant
            idx <= n,
            n == request.key_shards@.len(),
            pkg_group_key(request.public_key_package@) is Some,
            participants@.len() == idx as int,
            forall|i: int|
                0 <= i < idx as int ==> shard_fault(#[trigger] request.key_shards@[i]) is None,
        decreases n - idx,
    {
        let shard = &request.key_shards[idx];
        let id = match id_from_bytes(&shard.identifier) {
            Ok(id) => id,
            Err(_) => {
                proof {
                    lemma_first_fault_skip(request.key_shards@, idx as int);
                }
                return Err(TssError::Deserialization(TssField::Identifier));
            },
        };
        let kp = match key_package_from_bytes(&shard.secret_share) {
            Ok(kp) => kp,
            Err(ShareFault::Undecodable) => {
                proof {
                    lemma_first_fault_skip(request.key_shards@, idx as int);
                }
                return Err(TssError::Deserialization(TssField::SecretShare));
            },
            Err(ShareFault::Invalid) => {
                proof {
                    lemma_first_fault_skip(request.key_shards@, idx as int);
                }
                return Err(TssError::InvalidSecretShare);
            },
        };
        participants.push((id, kp));
        idx = idx + 1;
    }
    proof {
        lemma_first_fault_skip(request.key_shards@, n as int);
        assert(request.key_shards@.skip(n as int) =~= Seq::<KeyShard>::empty());
        assert(first_shard_fault(request.key_shards@) is None);
    }

    // Spec rule: aggregation must never be reached with fewer shards than
    // the threshold the key material records.
    if let Some(t) = threshold {
        if n < t as usize {
            return Err(TssError::Threshold);
        }
    }

    // Round 1: each participant commits to fresh single-use nonces.
    let mut rng = fresh_rng();
    let mut commitments: Vec<(FrostIdentifier, FrostCommitments)> = Vec::new();
    let mut nonces_list: Vec<FrostNonces> = Vec::new();
    idx = 0;
    while idx < participants.len()
        invariant
            idx <= participants@.len(),
            nonces_list@.len() == idx as int,
            pkg_group_key(request.public_key_package@) is Some,
            first_shard_fault(request.key_shards@) is None,
            pkg_min_signers(request.public_key_package@) is Some
                ==> request.key_shards@.len() >= pkg_min_signers(
                request.public_key_package@,
            ).unwrap(),
        decreases participants@.len() - idx,
    {
        let (nonce, commitment) = commit_with_key(&participants[idx].1, &mut rng);
        commitments.push((id_clone(&participants[idx].0), commitment));
        nonces_list.push(nonce);
        idx = idx + 1;
    }

    // The signing package every participant must agree on, bit for bit.
    let signing_package = new_signing_package(commitments, msg_bytes);

    // Round 2: each participant signs, consuming its nonces.
    let mut shares: Vec<(FrostIdentifier, FrostSignatureShare)> = Vec::new();
    idx = 0;
    while idx < participants.len()
        invariant
            idx <= participants@.len(),
            nonces_list@.len() == participants@.len() - idx as int,
            pkg_group_key(request.public_key_package@) is Some,
            first_shard_fault(request.key_shards@) is None,
            pkg_min_signers(request.public_key_package@) is Some
                ==> request.key_shards@.len() >= pkg_min_signers(
                request.public_key_package@,
            ).unwrap(),
        decreases participants@.len() - idx,
    {
        let nonce = nonces_list.remove(0);
        let share = match round2_sign(&signing_package, nonce, &participants[idx].1) {
            Ok(s) => s,
            Err(Round2Fault::TooFewCommitments) => {
                return Err(TssError::Threshold);
            },
            Err(_) => {
                return Err(TssError::ProtocolState);
            },
        };
        shares.push((id_clone(&participants[idx].0), share));
        idx = idx + 1;
    }

    // Aggregation: validates every share, names offenders, and only hands
    // out a signature that verifies under the group key.
    let sig_bytes = match aggregate_signature(&signing_package, shares, &pubkey_package) {
        Ok(b) => b,
        Err(AggregateFault::TooFewShares) => {
            return Err(TssError::Threshold);
        },
        Err(AggregateFault::InvalidShares(culprits)) => {
            return Err(TssError::ShareVerification { culprits });
        },
        Err(AggregateFault::UnknownIdentifier) => {
            return Err(TssError::ProtocolState);
        },
        Err(AggregateFault::Other) => {
            return Err(TssError::Internal);
        },
    };

    // Byte-level re-check of what aggregation promised.
    match verify_raw(&group_key, msg_bytes, &sig_bytes) {
        VerifyOutcome::Valid => {
            let text = encode_base64(&sig_bytes);
            proof {
                let sig = sig_bytes@;
                assert(ed25519_verifies(
                    pkg_group_key(request.public_key_package@).unwrap(),
                    encode_utf8(request.message@),
                    sig,
                ));
            }
            Ok(text)
        },
        _ => Err(TssError::Internal),
    }
}

} // verus!
