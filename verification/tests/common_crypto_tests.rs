use secure_update::crypto::{
    compute_sha3_256, compute_sha3_256_hex, verify_hybrid_signature, verify_sha3_256, CryptoFailure,
    HybridKeyPair,
};
use secure_update::hex::{constant_time_eq, encode_hex};

#[test]
fn test_key_generation_and_signing() {
    let keypair = HybridKeyPair::generate("test-publisher").unwrap();
    let data = b"Hello, secure update system!";
    let signature = keypair.sign(data).unwrap();
    let public_key = keypair.public_key();

    let result = verify_hybrid_signature(data, &signature, &public_key).unwrap();
    assert!(result.overall_valid);
    assert!(result.dilithium_valid);
    assert!(result.ed25519_valid);
}

#[test]
fn test_tampered_data_fails_verification() {
    let keypair = HybridKeyPair::generate("test-publisher").unwrap();
    let data = b"Original data";
    let signature = keypair.sign(data).unwrap();
    let public_key = keypair.public_key();

    let tampered = b"Tampered data";
    let result = verify_hybrid_signature(tampered, &signature, &public_key).unwrap();
    assert!(!result.overall_valid);
}

#[test]
fn test_wrong_publisher_key_fails() {
    let keypair1 = HybridKeyPair::generate("publisher-a").unwrap();
    let keypair2 = HybridKeyPair::generate("publisher-b").unwrap();
    let data = b"Some data";
    let signature = keypair1.sign(data).unwrap();
    let wrong_public_key = keypair2.public_key();

    let result = verify_hybrid_signature(data, &signature, &wrong_public_key).unwrap();
    assert!(!result.overall_valid);
}

#[test]
fn test_sha3_256() {
    let data = b"test data";
    let hash = compute_sha3_256_hex(data);
    assert!(verify_sha3_256(data, &hash));
    assert!(!verify_sha3_256(b"other data", &hash));
}

#[test]
fn test_key_export_import() {
    let keypair = HybridKeyPair::generate("export-test").unwrap();
    let exported = keypair.export_secret_keys();
    let imported = HybridKeyPair::import_secret_keys(&exported).unwrap();

    let data = b"Test roundtrip";
    let sig = imported.sign(data).unwrap();
    let pk = keypair.public_key();
    let result = verify_hybrid_signature(data, &sig, &pk).unwrap();
    assert!(result.overall_valid);
}

#[test]
fn sha3_256_known_vector() {
    assert_eq!(
        compute_sha3_256_hex(b"abc"),
        "3a985da74fe225b2045c172d6bd390bd855f086e3e9d525b46bfe24511431532"
    );
    assert_eq!(compute_sha3_256(b"abc").len(), 32);
}

#[test]
fn hex_and_constant_time_comparison() {
    assert_eq!(encode_hex(&[0x00, 0x0f, 0xa0, 0xff]), "000fa0ff");
    assert!(constant_time_eq(b"abc", b"abc"));
    assert!(!constant_time_eq(b"abc", b"abd"));
    assert!(!constant_time_eq(b"abc", b"ab"));
}

#[test]
fn hex_case_matters_for_digest_check() {
    let data = b"case";
    let hash = compute_sha3_256_hex(data).to_uppercase();
    assert!(!verify_sha3_256(data, &hash));
}

#[test]
fn signature_records_publisher_and_public_key_encodings() {
    let keypair = HybridKeyPair::generate("acme").unwrap();
    let sig = keypair.sign(b"x").unwrap();
    assert_eq!(sig.publisher_id, "acme");
    let pk = keypair.public_key();
    assert_eq!(pk.publisher_id, "acme");
    let exported = keypair.export_secret_keys();
    assert_eq!(exported.dilithium_public_key, pk.dilithium_public_key);
}

#[test]
fn import_rejects_bad_key_material() {
    let keypair = HybridKeyPair::generate("bad-import").unwrap();
    let mut exported = keypair.export_secret_keys();
    exported.ed25519_secret_key = "not base64!".to_string();
    assert_eq!(HybridKeyPair::import_secret_keys(&exported).unwrap_err(), CryptoFailure::KeyEncoding);

    let mut exported = keypair.export_secret_keys();
    exported.ed25519_secret_key =
        base64::Engine::encode(&base64::engine::general_purpose::STANDARD, [1u8; 16]);
    assert_eq!(HybridKeyPair::import_secret_keys(&exported).unwrap_err(), CryptoFailure::InvalidEd25519KeyLength);
}

#[test]
fn verification_errors_for_malformed_keys() {
    let keypair = HybridKeyPair::generate("malformed").unwrap();
    let sig = keypair.sign(b"data").unwrap();
    let mut pk = keypair.public_key();
    pk.dilithium_public_key = "%%%".to_string();
    assert_eq!(
        verify_hybrid_signature(b"data", &sig, &pk).unwrap_err(),
        CryptoFailure::DilithiumPublicKeyEncoding
    );
    assert_eq!(CryptoFailure::DilithiumPublicKeyEncoding.message(), "Failed to decode Dilithium public key");
}

#[test]
fn details_line_reports_both_parts() {
    let keypair = HybridKeyPair::generate("details").unwrap();
    let sig = keypair.sign(b"payload").unwrap();
    let result = verify_hybrid_signature(b"payload", &sig, &keypair.public_key()).unwrap();
    assert_eq!(result.details, "Dilithium3: ✓ VALID | Ed25519: ✓ VALID | Overall: ✓ PASSED");
    let result = verify_hybrid_signature(b"other", &sig, &keypair.public_key()).unwrap();
    assert_eq!(result.details, "Dilithium3: ✗ INVALID | Ed25519: ✗ INVALID | Overall: ✗ FAILED");
}
