//! Laws relating the public operations.

use vstd::prelude::*;
use crate::codec::b64_bytes_of;
use crate::codec::b64_chars_of;
use crate::errors::TssError;
use crate::frost_api::ed25519_verifies;
use crate::frost_api::pkg_group_key;
use crate::frost_api::sig_decodable;
use crate::sign::first_shard_fault;
use crate::sign::shard_fault;
use crate::types::KeyShard;
use crate::verify::spec_verify_outcome;
use vstd::utf8::encode_utf8;

verus! {

/// Shards that are individually fault-free parse as a list.
///
/// `keygen` promises every shard it emits is fault-free (its identifier
/// and share bytes decode and the share passes its check), so by this
/// law any selection of its shards — in particular any signing subset —
/// draws none of `keysign`'s per-shard errors: the serialized forms
/// round-trip back into the protocol.
pub proof fn lemma_valid_shards_parse(shards: Seq<KeyShard>)
    requires
        forall|i: int| 0 <= i < shards.len() ==> shard_fault(#[trigger] shards[i]) is None,
    ensures
        first_shard_fault(shards) is None,
    decreases shards.len(),
{
    if shards.len() > 0 {
        assert(shard_fault(shards.first()) is None);
        assert(forall|i: int|
            0 <= i < shards.len() - 1 ==> shard_fault(#[trigger] shards.drop_first()[i]) is None)
            by {
            assert(forall|i: int|
                0 <= i < shards.len() - 1 ==> shards.drop_first()[i] == shards[i + 1]);
        }
        lemma_valid_shards_parse(shards.drop_first());
    }
}

/// A signature `keysign` hands out is one `verify_signature` accepts.
///
/// The hypotheses are exactly what `keysign` ensures of a successful
/// result: the public key package decodes, the 64 signature bytes decode
/// and verify under the package's group key, and the returned text is
/// the base64 encoding of those bytes. Under them, checking that text
/// against the same message and the same package returns `Ok(true)` —
/// never `Ok(false)` and never an error.
pub proof fn lemma_sign_then_verify(msg: Seq<char>, pkg: Seq<u8>, sig: Seq<u8>, text: Seq<char>)
    requires
        pkg_group_key(pkg) is Some,
        sig.len() == 64,
        sig_decodable(sig),
        ed25519_verifies(pkg_group_key(pkg).unwrap(), encode_utf8(msg), sig),
        text == b64_chars_of(sig),
        b64_bytes_of(text) == Some(sig),
    ensures
        spec_verify_outcome(msg, text, pkg) == Ok::<bool, TssError>(true),
{
}

} // verus!
