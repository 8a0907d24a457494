//! Threshold Ed25519 (FROST) signing library.
//!
//! A trusted dealer splits an Ed25519 signing key into `n` shares with a
//! `t`-of-`n` threshold (`keygen`); any `t` share-holders can jointly produce
//! one standard Ed25519 signature through the two-round FROST protocol
//! (`keysign`); the result verifies with plain Ed25519 verification
//! (`verify_signature`). The elliptic-curve arithmetic is done by the
//! `frost-ed25519` crate; this crate verifies the orchestration around it:
//! parameter validation, share bookkeeping, byte-level encodings and the
//! exact error reported for each malformed input.
//!
//! The dealer of `keygen` is a trusted single party: it sees the whole
//! secret while splitting it. Each secret share must afterwards stay with
//! the participant it was issued to.

pub mod codec;
pub mod errors;
pub mod frost_api;
pub mod keygen;
pub mod laws;
pub mod sign;
pub mod types;
pub mod verify;

pub use errors::ParamFault;
pub use errors::TssError;
pub use errors::TssField;
pub use keygen::keygen;
pub use sign::keysign;
pub use types::KeyShard;
pub use types::KeygenResult;
pub use types::SignRequest;
pub use types::VerifyRequest;
pub use verify::verify_signature;
