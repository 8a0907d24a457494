//! Each error variant, provoked by the input that draws it.

use tss_ed25519::KeyShard;
use tss_ed25519::ParamFault;
use tss_ed25519::SignRequest;
use tss_ed25519::TssError;
use tss_ed25519::TssField;
use tss_ed25519::VerifyRequest;
use tss_ed25519::keygen;
use tss_ed25519::keysign;
use tss_ed25519::verify_signature;

#[test]
fn keygen_rejects_min_signers_zero() {
    assert!(matches!(keygen(3, 0), Err(TssError::Parameter(ParamFault::MinSigners))));
    assert!(matches!(keygen(0, 0), Err(TssError::Parameter(ParamFault::MinSigners))));
}

#[test]
fn keygen_rejects_max_signers_zero() {
    assert!(matches!(keygen(0, 2), Err(TssError::Parameter(ParamFault::MaxSigners))));
    assert!(matches!(keygen(0, 1), Err(TssError::Parameter(ParamFault::MaxSigners))));
}

#[test]
fn keygen_rejects_threshold_above_count() {
    assert!(matches!(keygen(2, 3), Err(TssError::Parameter(ParamFault::MinSigners))));
    assert!(matches!(keygen(1, 2), Err(TssError::Parameter(ParamFault::MinSigners))));
}

#[test]
fn keysign_rejects_bad_public_key_package() {
    let gen = keygen(2, 2).unwrap();
    let request = SignRequest {
        message: "hello".to_string(),
        key_shards: gen.key_shards.clone(),
        public_key_package: vec![7u8; 12],
    };
    assert!(matches!(
        keysign(request),
        Err(TssError::Deserialization(TssField::PublicKeyPackage))
    ));
}

#[test]
fn keysign_rejects_bad_identifier() {
    let gen = keygen(2, 2).unwrap();
    let mut shard = gen.key_shards[0].clone();
    shard.identifier = vec![1u8, 2, 3];
    let request = SignRequest {
        message: "hello".to_string(),
        key_shards: vec![shard, gen.key_shards[1].clone()],
        public_key_package: gen.public_key_package.clone(),
    };
    assert!(matches!(
        keysign(request),
        Err(TssError::Deserialization(TssField::Identifier))
    ));
}

#[test]
fn keysign_rejects_zero_identifier() {
    let gen = keygen(2, 2).unwrap();
    let mut shard = gen.key_shards[0].clone();
    shard.identifier = vec![0u8; 32];
    let request = SignRequest {
        message: "hello".to_string(),
        key_shards: vec![shard, gen.key_shards[1].clone()],
        public_key_package: gen.public_key_package.clone(),
    };
    assert!(matches!(
        keysign(request),
        Err(TssError::Deserialization(TssField::Identifier))
    ));
}

#[test]
fn keysign_rejects_garbage_share() {
    let gen = keygen(2, 2).unwrap();
    let shard = KeyShard {
        identifier: gen.key_shards[0].identifier.clone(),
        secret_share: vec![0xEEu8; 9],
    };
    let request = SignRequest {
        message: "hello".to_string(),
        key_shards: vec![shard, gen.key_shards[1].clone()],
        public_key_package: gen.public_key_package.clone(),
    };
    assert!(matches!(
        keysign(request),
        Err(TssError::Deserialization(TssField::SecretShare))
    ));
}

#[test]
fn verify_rejects_bad_base64() {
    let gen = keygen(2, 2).unwrap();
    let verdict = verify_signature(VerifyRequest {
        message: "hello".to_string(),
        signature_base64: "not base64 !!!".to_string(),
        public_key_package: gen.public_key_package.clone(),
    });
    assert!(matches!(
        verdict,
        Err(TssError::Deserialization(TssField::SignatureEncoding))
    ));
}

#[test]
fn verify_rejects_wrong_signature_length() {
    let gen = keygen(2, 2).unwrap();
    // "AAAA" decodes to three zero bytes.
    let verdict = verify_signature(VerifyRequest {
        message: "hello".to_string(),
        signature_base64: "AAAA".to_string(),
        public_key_package: gen.public_key_package.clone(),
    });
    assert!(matches!(verdict, Err(TssError::SignatureLength(3))));
}

#[test]
fn verify_rejects_bad_public_key_package() {
    let gen = keygen(2, 2).unwrap();
    let request = SignRequest {
        message: "hello".to_string(),
        key_shards: gen.key_shards.clone(),
        public_key_package: gen.public_key_package.clone(),
    };
    let signature_base64 = keysign(request).unwrap();
    let verdict = verify_signature(VerifyRequest {
        message: "hello".to_string(),
        signature_base64,
        public_key_package: vec![9u8; 5],
    });
    assert!(matches!(
        verdict,
        Err(TssError::Deserialization(TssField::PublicKeyPackage))
    ));
}

#[test]
fn describe_names_every_error() {
    assert!(TssError::Threshold.describe().contains("min_signers"));
    assert!(
        TssError::Parameter(ParamFault::MaxSigners).describe().contains("max_signers")
    );
    assert!(
        TssError::Deserialization(TssField::Identifier).describe().contains("identifier")
    );
}
