//! The trusted boundary to the `frost-ed25519` crate.
//!
//! Everything cryptographic is done by `frost-ed25519` (and through it
//! `frost-core` and `curve25519-dalek`). This module carries the crate's
//! protocol values in opaque holder structs, names the deterministic
//! byte-level results of the outside calls with uninterpreted spec
//! functions, and wraps each call in a function whose contract states
//! what the crate's source shows. All proofs in this library rest on
//! these contracts.

use vstd::prelude::*;
use frost_ed25519::Identifier;
use frost_ed25519::SigningKey;
use frost_ed25519::VerifyingKey;
use frost_ed25519::keys::PublicKeyPackage;
use frost_ed25519::keys::SecretShare;
use frost_ed25519::keys::SigningShare;
use frost_ed25519::keys::VerifiableSecretSharingCommitment as VSSCommitment;
use crate::types::KeyShard;

verus! {

// ---------------------------------------------------------------------
// Opaque holders for the crate's protocol values. The verifier sees
// nothing inside them; they are only carried between the wrappers below.
// ---------------------------------------------------------------------

/// A participant identifier (a nonzero scalar) of `frost-ed25519`.
#[verifier::external_body]
pub struct FrostIdentifier {
    inner: frost_ed25519::Identifier,
}

/// A participant's validated signing key material (`keys::KeyPackage`).
#[verifier::external_body]
pub struct FrostKeyPackage {
    inner: frost_ed25519::keys::KeyPackage,
}

/// The group's public key material (`keys::PublicKeyPackage`).
#[verifier::external_body]
pub struct FrostPublicKeyPackage {
    inner: frost_ed25519::keys::PublicKeyPackage,
}

/// One participant's secret round-1 nonces (`round1::SigningNonces`).
/// Single use: round 2 consumes them.
#[verifier::external_body]
pub struct FrostNonces {
    inner: frost_ed25519::round1::SigningNonces,
}

/// The public commitments to one participant's nonces
/// (`round1::SigningCommitments`).
#[verifier::external_body]
pub struct FrostCommitments {
    inner: frost_ed25519::round1::SigningCommitments,
}

/// The common round-2 input: message plus all commitments
/// (`SigningPackage`).
#[verifier::external_body]
pub struct FrostSigningPackage {
    inner: frost_ed25519::SigningPackage,
}

/// One participant's round-2 output (`round2::SignatureShare`).
#[verifier::external_body]
pub struct FrostSignatureShare {
    inner: frost_ed25519::round2::SignatureShare,
}

#[verifier::external_type_specification]
#[verifier::external_body]
pub struct ExThreadRng(rand::rngs::ThreadRng);

// ---------------------------------------------------------------------
// Names for the deterministic byte-level results of the outside calls.
// ---------------------------------------------------------------------

/// Whether 32 bytes are the canonical encoding of a nonzero scalar, i.e.
/// whether `Identifier::deserialize` accepts them.
pub uninterp spec fn id_decodable(b: Seq<u8>) -> bool;

/// Whether `SecretShare::deserialize` accepts these bytes.
pub uninterp spec fn share_decodable(b: Seq<u8>) -> bool;

/// Whether the secret share encoded in these bytes passes its
/// verifiable-secret-sharing check, i.e. whether `KeyPackage::try_from`
/// accepts the decoded share. Meaningful only where `share_decodable`.
pub uninterp spec fn share_valid(b: Seq<u8>) -> bool;

/// What `PublicKeyPackage::deserialize` makes of these bytes: `Some` of
/// the 32-byte group verifying key held in the package if they decode,
/// `None` if they are rejected.
pub uninterp spec fn pkg_group_key(b: Seq<u8>) -> Option<Seq<u8>>;

/// The signing threshold recorded in a serialized public key package:
/// `Some(t)` where the bytes decode to a package carrying `min_signers`
/// `t`, `None` where they are rejected or the package records no
/// threshold.
pub uninterp spec fn pkg_min_signers(b: Seq<u8>) -> Option<u16>;

/// Whether `VerifyingKey::deserialize` accepts these bytes (a compressed,
/// non-identity curve point).
pub uninterp spec fn key_decodable(b: Seq<u8>) -> bool;

/// Whether `Signature::deserialize` accepts these bytes (32-byte R point
/// followed by a canonical 32-byte scalar).
pub uninterp spec fn sig_decodable(b: Seq<u8>) -> bool;

/// The outcome of standard Ed25519 verification (`VerifyingKey::verify`)
/// of `sig` over `msg` under `key`: a deterministic function of the three
/// byte strings.
pub uninterp spec fn ed25519_verifies(key: Seq<u8>, msg: Seq<u8>, sig: Seq<u8>) -> bool;

// ---------------------------------------------------------------------
// The library-side shapes the wrappers report outcomes in.
// ---------------------------------------------------------------------

/// The 32-byte little-endian encoding of the scalar `k`: what the default
/// identifier of participant number `k` serializes to.
pub open spec fn id_le_bytes(k: nat) -> Seq<u8> {
    Seq::new(32, |i: int| if i == 0 {
        (k % 256) as u8
    } else if i == 1 {
        ((k / 256) % 256) as u8
    } else {
        0u8
    })
}

/// Why dealer key generation failed.
#[derive(Debug, Clone, Copy, PartialEq, Eq)]
pub enum KeygenFault {
    /// `min_signers` below 2 or above `max_signers`.
    MinSigners,
    /// `max_signers` below 2.
    MaxSigners,
    /// The crate failed past parameter validation (e.g. serialization).
    Other,
}

/// Why a shard's bytes did not yield a usable key package.
#[derive(Debug, Clone, Copy, PartialEq, Eq)]
pub enum ShareFault {
    /// `SecretShare::deserialize` rejected the bytes.
    Undecodable,
    /// The decoded share failed its verifiable-secret-sharing check.
    Invalid,
}

/// Why one participant's round-2 signing failed.
#[derive(Debug, Clone, Copy, PartialEq, Eq)]
pub enum Round2Fault {
    /// The signing package holds fewer commitments than the threshold.
    TooFewCommitments,
    /// The participant's commitment is missing from the signing package.
    MissingCommitment,
    /// The participant's nonces do not match its commitment in the package.
    IncorrectCommitment,
    /// Any other failure inside the crate.
    Other,
}

/// Why aggregation failed.
#[derive(Debug, Clone, PartialEq, Eq)]
pub enum AggregateFault {
    /// Commitment and share identifier sets do not agree, or an identifier
    /// has no verification share in the public key package.
    UnknownIdentifier,
    /// Fewer shares than the threshold recorded in the public key package.
    TooFewShares,
    /// Individual signature shares failed verification; the serialized
    /// identifiers of their senders.
    InvalidShares(Vec<Vec<u8>>),
    /// Any other failure inside the crate.
    Other,
}

/// The outcome of raw Ed25519 verification on byte inputs.
#[derive(Debug, Clone, Copy, PartialEq, Eq)]
pub enum VerifyOutcome {
    /// Key and signature decoded; the signature is valid over the message.
    Valid,
    /// Key and signature decoded; the signature is not valid.
    Invalid,
    /// The signature bytes were rejected.
    BadSig,
    /// The key bytes were rejected.
    BadKey,
}

// ---------------------------------------------------------------------
// The wrappers.
// ---------------------------------------------------------------------

/// Relies on `rand::thread_rng`: a cryptographically secure generator;
/// nothing is assumed of the values it yields.
#[verifier::external_body]
pub(crate) fn fresh_rng() -> rand::rngs::ThreadRng {
    rand::thread_rng()
}

/// Relies on `frost_ed25519::Identifier::deserialize`: acceptance depends
/// on the bytes alone (canonical nonzero scalar of exactly 32 bytes).
#[verifier::external_body]
pub(crate) fn id_from_bytes(b: &Vec<u8>) -> (r: Result<FrostIdentifier, ()>)
    ensures
        r is Ok <==> id_decodable(b@),
        r is Ok ==> b@.len() == 32,
{
    match frost_ed25519::Identifier::deserialize(b) {
        Ok(inner) => Ok(FrostIdentifier { inner }),
        Err(_) => Err(()),
    }
}

/// Relies on `frost_ed25519::Identifier` being `Copy`: the copy is the
/// same identifier.
#[verifier::external_body]
pub(crate) fn id_clone(id: &FrostIdentifier) -> (r: FrostIdentifier)
    ensures
        r == *id,
{
    FrostIdentifier { inner: id.inner }
}

/// Relies on `frost_ed25519::keys::generate_with_dealer` with the default
/// identifier list: it validates `min_signers >= 2`, then
/// `max_signers >= 2`, then `min_signers <= max_signers` (in that order),
/// and on success returns one secret share per participant, keyed by the
/// identifiers 1 to `max_signers`, which the map yields in ascending
/// order; `Identifier::serialize` encodes the scalar `k` as 32 bytes
/// little-endian. Each share is handed out in its canonical serialization
/// (`SecretShare::serialize`), which `SecretShare::deserialize` accepts
/// back, and every dealt share is consistent with its own embedded
/// commitment, so its verifiable-secret-sharing check passes. Past
/// parameter validation the only failure left is serialization, reported
/// as `Other`.
#[verifier::external_body]
pub(crate) fn dealer_keygen(
    max_signers: u16,
    min_signers: u16,
    rng: &mut rand::rngs::ThreadRng,
) -> (r: Result<(Vec<crate::types::KeyShard>, FrostPublicKeyPackage), KeygenFault>)
    ensures
        min_signers < 2 ==> r matches Err(KeygenFault::MinSigners),
        min_signers >= 2 && max_signers < 2 ==> r matches Err(KeygenFault::MaxSigners),
        max_signers >= 2 && min_signers > max_signers ==> r matches Err(KeygenFault::MinSigners),
        2 <= min_signers <= max_signers ==> (r is Ok || r matches Err(KeygenFault::Other)),
        r matches Ok(v) ==> {
            &&& 2 <= min_signers <= max_signers
            &&& v.0@.len() == max_signers as int
            &&& forall|i: int|
                0 <= i < v.0@.len() ==> (#[trigger] v.0@[i]).identifier@ == id_le_bytes((i + 1) as nat)
            &&& forall|i: int|
                0 <= i < v.0@.len() ==> id_decodable((#[trigger] v.0@[i]).identifier@)
            &&& forall|i: int|
                0 <= i < v.0@.len() ==> share_decodable((#[trigger] v.0@[i]).secret_share@)
                    && share_valid(v.0@[i].secret_share@)
        },
{
    let ids = frost_ed25519::keys::IdentifierList::Default;
    let (shares, pkg) = match frost_ed25519::keys::generate_with_dealer(max_signers, min_signers, ids, rng) {
        Ok(x) => x,
        Err(frost_ed25519::Error::InvalidMinSigners) => return Err(KeygenFault::MinSigners),
        Err(frost_ed25519::Error::InvalidMaxSigners) => return Err(KeygenFault::MaxSigners),
        Err(_) => return Err(KeygenFault::Other),
    };
    let mut shards = Vec::new();
    for (id, share) in shares {
        let secret_share = share.serialize().map_err(|_| KeygenFault::Other)?;
        shards.push(crate::types::KeyShard { identifier: id.serialize(), secret_share });
    }
    Ok((shards, FrostPublicKeyPackage { inner: pkg }))
}

/// Relies on the public constructors of `frost-ed25519` to deal the
/// shards of a 1-of-`max_signers` group, which `generate_with_dealer`
/// refuses: the degree-0 sharing polynomial is the secret itself, so
/// every participant's signing share is the secret scalar
/// (`SigningKey::serialize` / `SigningShare::deserialize` carry it over,
/// both canonical 32-byte scalar encodings), and the one-coefficient
/// commitment is the group verifying key, making each dealt share pass
/// its verifiable-secret-sharing check (`evaluate_vss` of a single
/// coefficient is that coefficient). Identifiers are 1 to `max_signers`
/// in order, serialized 32 bytes little-endian; shares are canonical
/// serializations their deserialize accepts back. Returned beside the
/// shards: the 32-byte group verifying key.
#[verifier::external_body]
pub(crate) fn dealer_keygen_single(
    max_signers: u16,
    rng: &mut rand::rngs::ThreadRng,
) -> (r: Result<(Vec<KeyShard>, Vec<u8>), KeygenFault>)
    ensures
        r is Ok || r matches Err(KeygenFault::Other),
        r matches Ok(v) ==> {
            &&& v.0@.len() == max_signers as int
            &&& v.1@.len() == 32
            &&& forall|i: int|
                0 <= i < v.0@.len() ==> (#[trigger] v.0@[i]).identifier@ == id_le_bytes((i + 1) as nat)
            &&& forall|i: int|
                0 <= i < v.0@.len() ==> id_decodable((#[trigger] v.0@[i]).identifier@)
            &&& forall|i: int|
                0 <= i < v.0@.len() ==> share_decodable((#[trigger] v.0@[i]).secret_share@)
                    && share_valid(v.0@[i].secret_share@)
        },
{
    let key = SigningKey::new(rng);
    let vk = VerifyingKey::from(&key).serialize().map_err(|_| KeygenFault::Other)?;
    let comm = VSSCommitment::deserialize([&vk]).map_err(|_| KeygenFault::Other)?;
    let share = SigningShare::deserialize(&key.serialize()).map_err(|_| KeygenFault::Other)?;
    let mut shards = Vec::new();
    for k in 1..=max_signers {
        let id = Identifier::try_from(k).map_err(|_| KeygenFault::Other)?;
        let sb = SecretShare::new(id, share.clone(), comm.clone()).serialize();
        shards.push(KeyShard { identifier: id.serialize(), secret_share: sb.map_err(|_| KeygenFault::Other)? });
    }
    Ok((shards, vk))
}

/// Relies on `frost_ed25519::keys::PublicKeyPackage::from_commitment`:
/// over the one-coefficient commitment holding the group verifying key
/// and the identifiers 1 to `max_signers`, it derives each participant's
/// verification share, the same group verifying key, and records
/// threshold 1 (the commitment's coefficient count).
#[verifier::external_body]
pub(crate) fn single_pubkey_package(
    vk: &Vec<u8>,
    max_signers: u16,
) -> Result<FrostPublicKeyPackage, KeygenFault> {
    let comm = VSSCommitment::deserialize([vk]).map_err(|_| KeygenFault::Other)?;
    let mut ids = std::collections::BTreeSet::new();
    for k in 1..=max_signers {
        ids.insert(Identifier::try_from(k).map_err(|_| KeygenFault::Other)?);
    }
    let pkg = PublicKeyPackage::from_commitment(&ids, &comm).map_err(|_| KeygenFault::Other)?;
    Ok(FrostPublicKeyPackage { inner: pkg })
}

/// Relies on `frost_ed25519::keys::PublicKeyPackage::serialize` and
/// `VerifyingKey::serialize`, with the crate's round-trip guarantee that
/// `PublicKeyPackage::deserialize` gives the package back from its own
/// serialization: the returned package bytes decode to a package whose
/// group verifying key is the returned 32 key bytes, and
/// `VerifyingKey::deserialize` accepts what its serialize produced.
#[verifier::external_body]
pub(crate) fn package_to_bytes(pkg: &FrostPublicKeyPackage) -> (r: Result<(Vec<u8>, Vec<u8>), ()>)
    ensures
        r matches Ok(v) ==> {
            &&& pkg_group_key(v.0@) == Some(v.1@)
            &&& v.1@.len() == 32
            &&& key_decodable(v.1@)
        },
{
    let pkg_bytes = pkg.inner.serialize().map_err(|_| ())?;
    let key_bytes = pkg.inner.verifying_key().serialize().map_err(|_| ())?;
    Ok((pkg_bytes, key_bytes))
}

/// Relies on `frost_ed25519::keys::PublicKeyPackage::deserialize`:
/// acceptance depends on the bytes alone, and every decoded package holds
/// a non-identity group verifying key, so `VerifyingKey::serialize` on it
/// succeeds with the 32-byte point encoding, which its deserialize
/// accepts back. The package's `min_signers` field (the group's signing
/// threshold, `None` in packages from before the field existed) is
/// handed out as read.
#[verifier::external_body]
pub(crate) fn decode_pubkey_package(
    b: &Vec<u8>,
) -> (r: Result<(FrostPublicKeyPackage, Vec<u8>, Option<u16>), ()>)
    ensures
        r is Ok <==> pkg_group_key(b@) is Some,
        r matches Ok(v) ==> {
            &&& pkg_group_key(b@) == Some(v.1@)
            &&& v.1@.len() == 32
            &&& key_decodable(v.1@)
            &&& v.2 == pkg_min_signers(b@)
        },
{
    let pkg = match frost_ed25519::keys::PublicKeyPackage::deserialize(b) {
        Ok(p) => p,
        Err(_) => return Err(()),
    };
    let key_bytes = pkg.verifying_key().serialize().map_err(|_| ())?;
    let min_signers = pkg.min_signers();
    Ok((FrostPublicKeyPackage { inner: pkg }, key_bytes, min_signers))
}

/// Relies on `frost_ed25519::keys::SecretShare::deserialize` (acceptance
/// depends on the bytes alone) and `KeyPackage::try_from`, which runs the
/// share's verifiable-secret-sharing check (`SecretShare::verify`), a
/// deterministic function of the decoded share.
#[verifier::external_body]
pub(crate) fn key_package_from_bytes(b: &Vec<u8>) -> (r: Result<FrostKeyPackage, ShareFault>)
    ensures
        r is Ok <==> (share_decodable(b@) && share_valid(b@)),
        (r matches Err(ShareFault::Undecodable)) <==> !share_decodable(b@),
        (r matches Err(ShareFault::Invalid)) <==> (share_decodable(b@) && !share_valid(b@)),
{
    let share = match frost_ed25519::keys::SecretShare::deserialize(b) {
        Ok(s) => s,
        Err(_) => return Err(ShareFault::Undecodable),
    };
    match frost_ed25519::keys::KeyPackage::try_from(share) {
        Ok(inner) => Ok(FrostKeyPackage { inner }),
        Err(_) => Err(ShareFault::Invalid),
    }
}

/// Relies on `frost_ed25519::round1::commit`, fed with the key package's
/// own signing share: it draws fresh nonces from the generator and returns
/// them with their commitments. The result depends on the randomness, so
/// nothing is assumed of it.
#[verifier::external_body]
pub(crate) fn commit_with_key(
    kp: &FrostKeyPackage,
    rng: &mut rand::rngs::ThreadRng,
) -> (FrostNonces, FrostCommitments) {
    let (nonces, commitments) = frost_ed25519::round1::commit(kp.inner.signing_share(), rng);
    (FrostNonces { inner: nonces }, FrostCommitments { inner: commitments })
}

/// Relies on `frost_ed25519::SigningPackage::new`: it stores the given
/// commitments keyed by identifier, with the message. Infallible.
#[verifier::external_body]
pub(crate) fn new_signing_package(
    commitments: Vec<(FrostIdentifier, FrostCommitments)>,
    msg: &[u8],
) -> FrostSigningPackage {
    let map = commitments.into_iter().map(|(i, c)| (i.inner, c.inner)).collect();
    FrostSigningPackage { inner: frost_ed25519::SigningPackage::new(map, msg) }
}

/// Relies on `frost_ed25519::round2::sign`: one participant's signature
/// share over the signing package, consuming its nonces. Which error
/// comes back depends on values opaque here (the threshold and identifier
/// inside the key package), so only the shape of the outcome is stated.
#[verifier::external_body]
pub(crate) fn round2_sign(
    pkg: &FrostSigningPackage,
    nonces: FrostNonces,
    kp: &FrostKeyPackage,
) -> Result<FrostSignatureShare, Round2Fault> {
    match frost_ed25519::round2::sign(&pkg.inner, &nonces.inner, &kp.inner) {
        Ok(inner) => Ok(FrostSignatureShare { inner }),
        Err(frost_ed25519::Error::IncorrectNumberOfCommitments) => Err(Round2Fault::TooFewCommitments),
        Err(frost_ed25519::Error::MissingCommitment) => Err(Round2Fault::MissingCommitment),
        Err(frost_ed25519::Error::IncorrectCommitment) => Err(Round2Fault::IncorrectCommitment),
        Err(_) => Err(Round2Fault::Other),
    }
}

/// Relies on `frost_ed25519::aggregate` and `Signature::serialize`:
/// aggregation sums the shares into one Schnorr signature, and the
/// Ed25519 signature serialization is the 32-byte R point followed by the
/// 32-byte scalar, 64 bytes. An `InvalidSignatureShare` error carries the
/// identifiers of the offending participants, handed out serialized.
#[verifier::external_body]
pub(crate) fn aggregate_signature(
    pkg: &FrostSigningPackage,
    shares: Vec<(FrostIdentifier, FrostSignatureShare)>,
    pubkeys: &FrostPublicKeyPackage,
) -> (r: Result<Vec<u8>, AggregateFault>)
    ensures
        r matches Ok(v) ==> v@.len() == 64,
{
    let map = shares.into_iter().map(|(i, s)| (i.inner, s.inner)).collect();
    let sig = match frost_ed25519::aggregate(&pkg.inner, &map, &pubkeys.inner) {
        Ok(s) => s,
        Err(frost_ed25519::Error::UnknownIdentifier) => return Err(AggregateFault::UnknownIdentifier),
        Err(frost_ed25519::Error::IncorrectNumberOfShares) => return Err(AggregateFault::TooFewShares),
        Err(frost_ed25519::Error::InvalidSignatureShare { culprits }) => {
            return Err(AggregateFault::InvalidShares(culprits.iter().map(|c| c.serialize()).collect()))
        },
        Err(_) => return Err(AggregateFault::Other),
    };
    sig.serialize().map_err(|_| AggregateFault::Other)
}

/// Relies on `frost_ed25519::Signature::deserialize`,
/// `VerifyingKey::deserialize` and `VerifyingKey::verify`: acceptance of
/// the two encodings and the verification outcome are deterministic
/// functions of the bytes alone.
#[verifier::external_body]
pub(crate) fn verify_raw(key: &Vec<u8>, msg: &[u8], sig: &Vec<u8>) -> (r: VerifyOutcome)
    ensures
        (r == VerifyOutcome::BadSig) <==> !sig_decodable(sig@),
        (r == VerifyOutcome::BadKey) <==> (sig_decodable(sig@) && !key_decodable(key@)),
        (r == VerifyOutcome::Valid) <==> (sig_decodable(sig@) && key_decodable(key@) && ed25519_verifies(key@, msg@, sig@)),
        (r == VerifyOutcome::Invalid) <==> (sig_decodable(sig@) && key_decodable(key@) && !ed25519_verifies(key@, msg@, sig@)),
{
    let signature = match frost_ed25519::Signature::deserialize(sig) {
        Ok(s) => s,
        Err(_) => return VerifyOutcome::BadSig,
    };
    let verifying_key = match frost_ed25519::VerifyingKey::deserialize(key) {
        Ok(k) => k,
        Err(_) => return VerifyOutcome::BadKey,
    };
    match verifying_key.verify(msg, &signature) {
        Ok(()) => VerifyOutcome::Valid,
        Err(_) => VerifyOutcome::Invalid,
    }
}

} // verus!
