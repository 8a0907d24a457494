//! Threshold key generation by a trusted dealer.

use vstd::prelude::*;
use crate::errors::ParamFault;
use crate::errors::TssError;
use crate::frost_api::dealer_keygen;
use crate::frost_api::dealer_keygen_single;
use crate::frost_api::fresh_rng;
use crate::frost_api::id_le_bytes;
use crate::frost_api::key_decodable;
use crate::frost_api::package_to_bytes;
use crate::frost_api::pkg_group_key;
use crate::frost_api::single_pubkey_package;
use crate::laws::lemma_valid_shards_parse;
use crate::sign::first_shard_fault;
use crate::sign::shard_fault;
use crate::types::KeyShard;
use crate::types::KeygenResult;
use vstd::arithmetic::div_mod::lemma_fundamental_div_mod;
use vstd::arithmetic::mul::lemma_mul_inequality;

verus! {

/// No two shards carry the same identifier bytes.
pub open spec fn distinct_identifiers(shards: Seq<KeyShard>) -> bool {
    forall|i: int, j: int|
        0 <= i < j < shards.len() ==> (#[trigger] shards[i]).identifier@ != (
        #[trigger] shards[j]).identifier@
}

/// The 32-byte little-endian encoding is injective below 2^16.
proof fn lemma_id_le_bytes_injective(a: nat, b: nat)
    requires
        a < 65536,
        b < 65536,
        a != b,
    ensures
        id_le_bytes(a) != id_le_bytes(b),
{
    if id_le_bytes(a) == id_le_bytes(b) {
        assert(id_le_bytes(a)[0] == id_le_bytes(b)[0]);
        assert(id_le_bytes(a)[1] == id_le_bytes(b)[1]);
        assert(a % 256 == b % 256);
        assert(a / 256 % 256 == b / 256 % 256);
        lemma_fundamental_div_mod(a as int, 256);
        lemma_fundamental_div_mod(b as int, 256);
        if a / 256 >= 256 {
            lemma_mul_inequality(256, a as int / 256, 256);
        }
        if b / 256 >= 256 {
            lemma_mul_inequality(256, b as int / 256, 256);
        }
        assert(a / 256 == a / 256 % 256);
        assert(b / 256 == b / 256 % 256);
        assert(a == 256 * (a as int / 256) + a as int % 256);
        assert(false);
    }
}

/// Generate `max_signers` key shards with threshold `min_signers`, by a
/// trusted dealer: Shamir sharing over the Ed25519 scalar field with
/// verifiable-secret-sharing commitments, done by `frost-ed25519`. A
/// threshold of 1 is dealt as the degree-0 special case, where every
/// share is the group secret itself.
///
/// Parameters are valid exactly when `1 <= min_signers <= max_signers`;
/// anything else draws the `Parameter` error named for the offending
/// count, and nothing else ever does. On valid parameters the only
/// failure left is `Internal` (the backend could not serialize a value).
/// On success there are exactly `max_signers` shards; their identifiers
/// are the scalar encodings of 1 to `max_signers` in that order, so they
/// are pairwise distinct; every shard parses back into the protocol
/// (identifier and share bytes decode, the share passes its
/// verifiable-secret-sharing check); and the returned group public key
/// is exactly the 32-byte verifying key held in the returned public key
/// package.
///
/// Consumes secure randomness; two calls yield independent keys.
pub fn keygen(max_signers: u16, min_signers: u16) -> (r: Result<KeygenResult, TssError>)
    ensures
        (r matches Err(TssError::Parameter(ParamFault::MinSigners))) <==> (min_signers < 1 || (
        max_signers >= 1 && min_signers > max_signers)),
        (r matches Err(TssError::Parameter(ParamFault::MaxSigners))) <==> (min_signers >= 1
            && max_signers < 1),
        1 <= min_signers <= max_signers ==> (r is Ok || r matches Err(TssError::Internal)),
        r matches Ok(v) ==> {
            &&& 1 <= min_signers <= max_signers
            &&& v.key_shards@.len() == max_signers as int
            &&& forall|i: int|
                0 <= i < v.key_shards@.len() ==> (#[trigger] v.key_shards@[i]).identifier@
                    == id_le_bytes((i + 1) as nat)
            &&& distinct_identifiers(v.key_shards@)
            &&& forall|i: int|
                0 <= i < v.key_shards@.len() ==> shard_fault(#[trigger] v.key_shards@[i]) is None
            &&& first_shard_fault(v.key_shards@) is None
            &&& pkg_group_key(v.public_key_package@) == Some(v.group_public_key@)
            &&& v.group_public_key@.len() == 32
            &&& key_decodable(v.group_public_key@)
        },
{
    if min_signers < 1 {
        return Err(TssError::Parameter(ParamFault::MinSigners));
    }
    if max_signers < 1 {
        return Err(TssError::Parameter(ParamFault::MaxSigners));
    }
    if min_signers > max_signers {
        return Err(TssError::Parameter(ParamFault::MinSigners));
    }
    let mut rng = fresh_rng();
    let (key_shards, pkg) = if min_signers == 1 {
        let (shards, vk) = match dealer_keygen_single(max_signers, &mut rng) {
            Ok(x) => x,
            Err(_) => {
                return Err(TssError::Internal);
            },
        };
        let pkg = match single_pubkey_package(&vk, max_signers) {
            Ok(p) => p,
            Err(_) => {
                return Err(TssError::Internal);
            },
        };
        (shards, pkg)
    } else {
        match dealer_keygen(max_signers, min_signers, &mut rng) {
            Ok(x) => x,
            Err(_) => {
                return Err(TssError::Internal);
            },
        }
    };
    let (public_key_package, group_public_key) = match package_to_bytes(&pkg) {
        Ok(x) => x,
        Err(_) => {
            return Err(TssError::Internal);
        },
    };
    proof {
        assert forall|i: int, j: int|
            0 <= i < j < key_shards@.len() implies (#[trigger] key_shards@[i]).identifier@ != (
        #[trigger] key_shards@[j]).identifier@ by {
            lemma_id_le_bytes_injective((i + 1) as nat, (j + 1) as nat);
        }
        lemma_valid_shards_parse(key_shards@);
    }
    Ok(KeygenResult { key_shards, public_key_package, group_public_key })
}

} // verus!
