use secure_update::classical::Ed25519KeyPair;
use secure_update::crypto::{compute_sha3_256_hex, HybridKeyPair};
use secure_update::models::{package_message_bytes, PackageMetadata, Platform};
use secure_update::package_verifier::verify_package;
use secure_update::server_api::{
    account_creation_outcome, missing_token, package_not_found, registration_outcome, session_creation_failed,
    session_expiry, ApiStatus,
};
use secure_update::version::SemanticVersion;

fn metadata(kp: &HybridKeyPair, data: &[u8], version: SemanticVersion) -> PackageMetadata {
    let statement = package_message_bytes("app", &version, "app.pkg", &compute_sha3_256_hex(data));
    PackageMetadata {
        package_id: "id".to_string(),
        app_id: "app".to_string(),
        version,
        publisher_id: kp.publisher_id.clone(),
        sha3_256_hash: compute_sha3_256_hex(data),
        file_size: data.len() as u64,
        filename: "app.pkg".to_string(),
        description: String::new(),
        target_platforms: vec![Platform::CrossPlatform],
        signature: kp.sign(&statement).unwrap(),
        published_at: 0,
        min_upgrade_from: None,
        changelog: vec![],
    }
}

#[test]
fn genuine_newer_package_passes() {
    let kp = HybridKeyPair::generate("acme").unwrap();
    let data = b"update payload";
    let m = metadata(&kp, data, SemanticVersion::new(1, 1, 0));
    let rep = verify_package(data, &m, &kp.public_key(), &SemanticVersion::new(1, 0, 0)).unwrap();
    assert!(rep.overall_valid);
    assert!(rep.errors.is_empty());
    let summary = rep.summary();
    assert!(summary.starts_with("═══ Verification Report ═══\n  File size:      ✓ PASS"));
    assert!(summary.ends_with("  OVERALL:        ✅ PASSED"));
}

#[test]
fn downgraded_tampered_and_foreign_packages_fail() {
    let kp = HybridKeyPair::generate("acme").unwrap();
    let data = b"update payload";
    let m = metadata(&kp, data, SemanticVersion::new(1, 0, 0));
    let rep = verify_package(data, &m, &kp.public_key(), &SemanticVersion::new(1, 0, 0)).unwrap();
    assert!(!rep.overall_valid && !rep.version_check);
    assert_eq!(rep.errors, vec!["Downgrade attempt blocked: 1.0.0 → 1.0.0 is not allowed".to_string()]);

    let m = metadata(&kp, data, SemanticVersion::new(2, 0, 0));
    let rep = verify_package(b"update payloaD", &m, &kp.public_key(), &SemanticVersion::new(1, 0, 0)).unwrap();
    assert!(!rep.overall_valid && !rep.hash_check && rep.size_check);
    assert!(rep.errors[0].starts_with("Hash mismatch: expected "));
    assert_eq!(rep.errors.len(), 1);
    assert!(rep.dilithium_valid && rep.ed25519_valid);

    let other = HybridKeyPair::generate("other").unwrap();
    let rep = verify_package(data, &m, &other.public_key(), &SemanticVersion::new(1, 0, 0)).unwrap();
    assert!(!rep.publisher_check);
    assert_eq!(
        rep.errors.last().unwrap(),
        "Publisher mismatch: metadata says 'acme', key belongs to 'other'"
    );
    assert!(rep.summary().contains("    ⚠ Publisher mismatch"));

    let rep = verify_package(b"short", &m, &kp.public_key(), &SemanticVersion::new(1, 0, 0)).unwrap();
    assert_eq!(rep.errors[0], "Size mismatch: expected 14 bytes, got 5 bytes");
}

#[test]
fn metadata_altered_after_signing_fails() {
    let kp = HybridKeyPair::generate("p").unwrap();
    let data = b"package bytes";
    let m = metadata(&kp, data, SemanticVersion::new(2, 0, 0));
    let cur = SemanticVersion::new(1, 0, 0);
    let rep = verify_package(data, &m, &kp.public_key(), &cur).unwrap();
    assert!(rep.overall_valid);
    assert_eq!(rep.signature_details, "Dilithium3: ✓ VALID | Ed25519: ✓ VALID | Overall: ✓ PASSED");

    let mut m2 = m.clone();
    m2.version = SemanticVersion::new(9, 9, 9);
    let rep = verify_package(data, &m2, &kp.public_key(), &cur).unwrap();
    assert!(!rep.overall_valid);
    assert!(!rep.dilithium_valid && !rep.ed25519_valid);
    assert_eq!(rep.errors, vec!["Dilithium signature INVALID".to_string(), "Ed25519 signature INVALID".to_string()]);

    let mut m3 = m.clone();
    m3.filename = "evil.exe".to_string();
    assert!(!verify_package(data, &m3, &kp.public_key(), &cur).unwrap().overall_valid);

    let mut m4 = m.clone();
    m4.app_id = "other-app".to_string();
    assert!(!verify_package(data, &m4, &kp.public_key(), &cur).unwrap().overall_valid);
}

#[test]
fn simple_refusals() {
    let e = missing_token();
    assert_eq!((e.status.code(), e.error.as_str()), (401, "Missing Authorization header"));
    assert_eq!(account_creation_outcome(Ok(())).unwrap(), ApiStatus::Created);
    assert_eq!(account_creation_outcome(Err("dup".to_string())).unwrap_err().error, "dup");
    assert_eq!(registration_outcome(Err("db".to_string())).unwrap_err().status.code(), 500);
    assert_eq!(session_creation_failed("disk full").error, "Session creation failed: disk full");
    assert_eq!(package_not_found().status.code(), 404);
    assert_eq!(session_expiry(100), 100 + 86400);
}

#[test]
fn public_key_base64_uses_the_standard_alphabet() {
    let kp = Ed25519KeyPair::generate().unwrap();
    assert_eq!(
        kp.public_key_base64(),
        base64::Engine::encode(&base64::engine::general_purpose::STANDARD, &kp.public_key)
    );
}
