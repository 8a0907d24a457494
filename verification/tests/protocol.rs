//! End-to-end runs of the threshold signing protocol.

use base64::Engine;
use tss_ed25519::KeyShard;
use tss_ed25519::SignRequest;
use tss_ed25519::TssError;
use tss_ed25519::VerifyRequest;
use tss_ed25519::keygen;
use tss_ed25519::keysign;
use tss_ed25519::verify_signature;

fn le32(k: u16) -> Vec<u8> {
    let mut v = vec![0u8; 32];
    v[0] = (k % 256) as u8;
    v[1] = (k / 256) as u8;
    v
}

#[test]
fn keygen_counts_and_identifiers() {
    let result = keygen(3, 2).unwrap();
    assert_eq!(result.key_shards.len(), 3);
    for (i, shard) in result.key_shards.iter().enumerate() {
        assert_eq!(shard.identifier, le32(i as u16 + 1));
        assert!(!shard.secret_share.is_empty());
    }
    for i in 0..3 {
        for j in 0..3 {
            if i != j {
                assert_ne!(result.key_shards[i].identifier, result.key_shards[j].identifier);
            }
        }
    }
    assert_eq!(result.group_public_key.len(), 32);
    assert!(!result.public_key_package.is_empty());
}

#[test]
fn keygen_is_not_deterministic() {
    let a = keygen(3, 2).unwrap();
    let b = keygen(3, 2).unwrap();
    assert_ne!(a.group_public_key, b.group_public_key);
}

fn subset_request(message: &str, shards: &[KeyShard], pkg: &[u8]) -> SignRequest {
    SignRequest {
        message: message.to_string(),
        key_shards: shards.to_vec(),
        public_key_package: pkg.to_vec(),
    }
}

#[test]
fn two_of_three_sign_and_verify() {
    let gen = keygen(3, 2).unwrap();
    let other_gen = keygen(3, 2).unwrap();
    let request = subset_request(
        "hello",
        &[gen.key_shards[0].clone(), gen.key_shards[2].clone()],
        &gen.public_key_package,
    );
    let signature_base64 = keysign(request).unwrap();

    let verdict = verify_signature(VerifyRequest {
        message: "hello".to_string(),
        signature_base64: signature_base64.clone(),
        public_key_package: gen.public_key_package.clone(),
    });
    assert_eq!(verdict.unwrap(), true);

    // The same signature against a different group's key is merely
    // invalid, not malformed.
    let foreign = verify_signature(VerifyRequest {
        message: "hello".to_string(),
        signature_base64: signature_base64.clone(),
        public_key_package: other_gen.public_key_package.clone(),
    });
    assert_eq!(foreign.unwrap(), false);
}

#[test]
fn all_three_sign_and_verify() {
    let gen = keygen(3, 2).unwrap();
    let request = subset_request("a longer message, signed by all three", &gen.key_shards, &gen.public_key_package);
    let signature_base64 = keysign(request).unwrap();
    let verdict = verify_signature(VerifyRequest {
        message: "a longer message, signed by all three".to_string(),
        signature_base64,
        public_key_package: gen.public_key_package.clone(),
    });
    assert_eq!(verdict.unwrap(), true);
}

#[test]
fn tampered_message_fails_verification() {
    let gen = keygen(3, 2).unwrap();
    let request = subset_request("hello", &gen.key_shards[..2], &gen.public_key_package);
    let signature_base64 = keysign(request).unwrap();
    let verdict = verify_signature(VerifyRequest {
        message: "hellp".to_string(),
        signature_base64,
        public_key_package: gen.public_key_package.clone(),
    });
    assert_eq!(verdict.unwrap(), false);
}

#[test]
fn tampered_signature_fails_verification() {
    let gen = keygen(3, 2).unwrap();
    let request = subset_request("hello", &gen.key_shards[..2], &gen.public_key_package);
    let signature_base64 = keysign(request).unwrap();
    let mut sig = base64::engine::general_purpose::STANDARD
        .decode(&signature_base64)
        .unwrap();
    assert_eq!(sig.len(), 64);
    // Flip the lowest bit of the scalar half: still a canonical scalar,
    // so the signature stays well-formed and is simply wrong.
    sig[32] ^= 1;
    let tampered = base64::engine::general_purpose::STANDARD.encode(&sig);
    let verdict = verify_signature(VerifyRequest {
        message: "hello".to_string(),
        signature_base64: tampered,
        public_key_package: gen.public_key_package.clone(),
    });
    assert_eq!(verdict.unwrap(), false);
}

#[test]
fn below_threshold_fails() {
    let gen = keygen(3, 2).unwrap();
    let request = subset_request("hello", &gen.key_shards[..1], &gen.public_key_package);
    assert!(matches!(keysign(request), Err(TssError::Threshold)));
}

#[test]
fn no_shards_fails() {
    let gen = keygen(3, 2).unwrap();
    let request = subset_request("hello", &[], &gen.public_key_package);
    assert!(matches!(keysign(request), Err(TssError::Threshold)));
}

#[test]
fn corrupted_shard_is_isolated() {
    let gen = keygen(3, 2).unwrap();
    let mut bad_shard = gen.key_shards[1].clone();
    let last: usize = bad_shard.secret_share.len() - 1;
    bad_shard.secret_share[last] ^= 0x40;
    let request = subset_request(
        "hello",
        &[gen.key_shards[0].clone(), bad_shard, gen.key_shards[2].clone()],
        &gen.public_key_package,
    );
    let outcome = keysign(request);
    assert!(matches!(
        outcome,
        Err(TssError::InvalidSecretShare)
            | Err(TssError::Deserialization(tss_ed25519::TssField::SecretShare))
    ));

    // The untouched shards still sign together.
    let good = subset_request(
        "hello",
        &[gen.key_shards[0].clone(), gen.key_shards[2].clone()],
        &gen.public_key_package,
    );
    let signature_base64 = keysign(good).unwrap();
    let verdict = verify_signature(VerifyRequest {
        message: "hello".to_string(),
        signature_base64,
        public_key_package: gen.public_key_package.clone(),
    });
    assert_eq!(verdict.unwrap(), true);
}

#[test]
fn empty_message_signs_and_verifies() {
    let gen = keygen(2, 2).unwrap();
    let request = subset_request("", &gen.key_shards, &gen.public_key_package);
    let signature_base64 = keysign(request).unwrap();
    let verdict = verify_signature(VerifyRequest {
        message: String::new(),
        signature_base64,
        public_key_package: gen.public_key_package.clone(),
    });
    assert_eq!(verdict.unwrap(), true);
}

#[test]
fn one_of_three_sign_and_verify() {
    let gen = keygen(3, 1).unwrap();
    assert_eq!(gen.key_shards.len(), 3);
    for (i, shard) in gen.key_shards.iter().enumerate() {
        assert_eq!(shard.identifier, le32(i as u16 + 1));
    }
    // A single shard suffices at threshold 1.
    let request = subset_request("hello", &gen.key_shards[1..2], &gen.public_key_package);
    let signature_base64 = keysign(request).unwrap();
    let verdict = verify_signature(VerifyRequest {
        message: "hello".to_string(),
        signature_base64,
        public_key_package: gen.public_key_package.clone(),
    });
    assert_eq!(verdict.unwrap(), true);

    // Several shards of a 1-of-n group also sign together.
    let many = subset_request("hello", &gen.key_shards, &gen.public_key_package);
    let signature_base64 = keysign(many).unwrap();
    let verdict = verify_signature(VerifyRequest {
        message: "hello".to_string(),
        signature_base64,
        public_key_package: gen.public_key_package.clone(),
    });
    assert_eq!(verdict.unwrap(), true);

    // No shards at all is still below the threshold.
    let none = subset_request("hello", &[], &gen.public_key_package);
    assert!(matches!(keysign(none), Err(TssError::Threshold)));
}

#[test]
fn single_member_group() {
    let gen = keygen(1, 1).unwrap();
    assert_eq!(gen.key_shards.len(), 1);
    let request = subset_request("hello", &gen.key_shards, &gen.public_key_package);
    let signature_base64 = keysign(request).unwrap();
    let verdict = verify_signature(VerifyRequest {
        message: "hello".to_string(),
        signature_base64,
        public_key_package: gen.public_key_package.clone(),
    });
    assert_eq!(verdict.unwrap(), true);
}

#[test]
fn largest_small_group() {
    let gen = keygen(255, 255).unwrap();
    assert_eq!(gen.key_shards.len(), 255);
    assert_eq!(gen.key_shards[254].identifier, le32(255));
}
