use secure_update::crypto::{compute_sha3_256_hex, verify_hybrid_signature, HybridKeyPair};
use secure_update::version::SemanticVersion;

#[test]
fn attack_tampering() {
    let publisher = HybridKeyPair::generate("legit-publisher").unwrap();
    let original = b"Original legitimate software package";
    let signature = publisher.sign(original).unwrap();
    let pk = publisher.public_key();

    let mut tampered = original.to_vec();
    tampered[0] ^= 0xFF;

    let result = verify_hybrid_signature(&tampered, &signature, &pk).unwrap();
    assert!(!result.overall_valid, "ATTACK BLOCKED: Tampered package rejected");
}

#[test]
fn attack_signature_substitution() {
    let legit_publisher = HybridKeyPair::generate("legit").unwrap();
    let attacker = HybridKeyPair::generate("attacker").unwrap();
    let _legit_data = b"Legitimate package";
    let malicious_data = b"Malicious package with backdoor";

    let attacker_sig = attacker.sign(malicious_data).unwrap();
    let result = verify_hybrid_signature(malicious_data, &attacker_sig, &legit_publisher.public_key()).unwrap();
    assert!(!result.overall_valid, "ATTACK BLOCKED: Signature from wrong publisher rejected");
}

#[test]
fn attack_downgrade() {
    let current = SemanticVersion::new(3, 0, 0);
    let old_vulnerable = SemanticVersion::new(1, 0, 0);
    assert!(
        !SemanticVersion::is_safe_upgrade(&current, &old_vulnerable),
        "ATTACK BLOCKED: Downgrade from 3.0.0 to 1.0.0 rejected"
    );
}

#[test]
fn attack_replay() {
    let current = SemanticVersion::new(2, 0, 0);
    let replayed = SemanticVersion::new(2, 0, 0);
    assert!(
        !SemanticVersion::is_safe_upgrade(&current, &replayed),
        "ATTACK BLOCKED: Replay of same version rejected"
    );
}

#[test]
fn attack_hash_collision_attempt() {
    let data_a = b"Package A content with specific bytes";
    let data_b = b"Package B completely different content";
    let hash_a = compute_sha3_256_hex(data_a);
    let hash_b = compute_sha3_256_hex(data_b);
    assert_ne!(hash_a, hash_b, "Different data should produce different hashes");

    let mut data_c = data_a.to_vec();
    data_c.push(0x00);
    let hash_c = compute_sha3_256_hex(&data_c);
    assert_ne!(hash_a, hash_c, "Even one byte difference changes the hash");
}

#[test]
fn attack_partial_signature_bypass() {
    let publisher = HybridKeyPair::generate("hybrid-test").unwrap();
    let data = b"Test package";
    let mut signature = publisher.sign(data).unwrap();

    signature.ed25519_signature =
        base64::Engine::encode(&base64::engine::general_purpose::STANDARD, [0u8; 64]);

    let result = verify_hybrid_signature(data, &signature, &publisher.public_key()).unwrap();
    assert!(
        !result.overall_valid,
        "ATTACK BLOCKED: Corrupted Ed25519 signature rejected despite valid Dilithium"
    );
    assert!(result.dilithium_valid, "Dilithium should still be valid");
    assert!(!result.ed25519_valid, "Ed25519 should be invalid");
}
