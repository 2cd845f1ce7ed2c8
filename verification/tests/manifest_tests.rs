use base64::Engine;
use secure_update::core_types::{HashAlgorithm, SignatureAlgorithm};
use secure_update::hybrid::HybridSignature;
use secure_update::key_management::PublisherKeyMaterial;
use secure_update::manifest_verifier::ManifestVerifier;
use secure_update::update_server::{ManifestBuilder, PackageFile, MANIFEST_LIFETIME_SECS};

const NOW: i64 = 1_700_000_000;

fn files() -> Vec<PackageFile> {
    vec![PackageFile {
        path: "app-1.0.0.bin".to_string(),
        contents: b"binary".to_vec(),
        download_url: "/api/packages/app/1.0.0/download".to_string(),
    }]
}

fn signed(keys: &PublisherKeyMaterial, bytes: &[u8]) -> secure_update::core_types::SignedManifest {
    let manifest = ManifestBuilder::build_manifest(
        "app",
        "1.0.0",
        Some("0.9.0"),
        &files(),
        &keys.identity.id,
        Some("notes"),
        NOW,
    );
    ManifestBuilder::create_signed_manifest(manifest, &Ok(bytes.to_vec()), keys, NOW).unwrap()
}

#[test]
fn built_manifest_describes_its_files() {
    let m = ManifestBuilder::build_manifest("app", "1.0.0", None, &files(), "pub", None, NOW);
    assert_eq!(m.expires, Some(NOW + MANIFEST_LIFETIME_SECS));
    assert_eq!(m.files.len(), 1);
    assert_eq!(m.files[0].size, 6);
    assert_eq!(m.files[0].hash_algorithm, HashAlgorithm::Blake3);
    assert_eq!(m.files[0].hash.len(), 64);
    assert_eq!(m.publisher_id, "pub");
    assert!(m.previous_version.is_none());
}

#[test]
fn ed25519_signed_manifest_verifies() {
    let keys = PublisherKeyMaterial::generate("pub-ed", "Pub", "http://x", SignatureAlgorithm::Ed25519).unwrap();
    let bytes = b"{\"manifest\":1}";
    let sm = signed(&keys, bytes);
    let r = ManifestVerifier::verify(&sm, &keys.identity, &Ok(bytes.to_vec()), &vec![Err("unused".to_string())], NOW);
    assert!(r.is_valid, "{:?}", r.errors);
    assert!(r.errors.is_empty());
    assert_eq!(r.checks[0].name, "Publisher ID Match");
    assert_eq!(r.checks[1].details, "1 signature(s) found");
    assert_eq!(r.checks[2].name, "Signature Verification (Ed25519)");
    assert_eq!(r.checks[2].details, "Signature verified successfully");
    assert_eq!(r.checks[3].name, "Manifest Expiration");
    assert!(r.checks[3].passed);
    assert_eq!(r.checks[4].details, "0.9.0 -> 1.0.0");
}

#[test]
fn ml_dsa_signed_manifest_verifies() {
    let keys = PublisherKeyMaterial::generate("pub-pq", "Pub", "http://x", SignatureAlgorithm::MlDsa65).unwrap();
    let bytes = b"pq manifest";
    let sm = signed(&keys, bytes);
    let r = ManifestVerifier::verify(&sm, &keys.identity, &Ok(bytes.to_vec()), &vec![Err("unused".to_string())], NOW);
    assert!(r.is_valid, "{:?}", r.errors);
}

#[test]
fn tampered_manifest_bytes_fail() {
    let keys = PublisherKeyMaterial::generate("pub-t", "Pub", "http://x", SignatureAlgorithm::Ed25519).unwrap();
    let sm = signed(&keys, b"original");
    let r = ManifestVerifier::verify(&sm, &keys.identity, &Ok(b"tampered".to_vec()), &vec![Err("unused".to_string())], NOW);
    assert!(!r.is_valid);
    assert_eq!(r.errors, vec![format!("Signature verification failed for key {}", keys.identity.key_id)]);
    assert_eq!(r.checks[2].details, "Verification failed: Signature verification failed");
}

#[test]
fn hybrid_manifest_needs_its_parsed_signature() {
    let keys =
        PublisherKeyMaterial::generate("pub-h", "Pub", "http://x", SignatureAlgorithm::HybridEd25519MlDsa65).unwrap();
    let bytes = b"hybrid manifest";
    let sm = signed(&keys, bytes);
    let parsed: HybridSignature = keys.hybrid_keypair.as_ref().unwrap().sign(bytes).unwrap();
    let r = ManifestVerifier::verify(&sm, &keys.identity, &Ok(bytes.to_vec()), &vec![Ok(parsed)], NOW);
    assert!(r.is_valid, "{:?}", r.errors);

    let r = ManifestVerifier::verify(
        &sm,
        &keys.identity,
        &Ok(bytes.to_vec()),
        &vec![Err("expected value at line 1 column 1".to_string())],
        NOW,
    );
    assert!(!r.is_valid);
    assert_eq!(r.checks[2].details, "Verification failed: Serialization error: expected value at line 1 column 1");
}

#[test]
fn stripped_and_foreign_manifests_fail() {
    let keys = PublisherKeyMaterial::generate("pub-s", "Pub", "http://x", SignatureAlgorithm::Ed25519).unwrap();
    let mut sm = signed(&keys, b"m");
    sm.signatures.clear();
    let r = ManifestVerifier::verify(&sm, &keys.identity, &Ok(b"m".to_vec()), &vec![], NOW);
    assert!(!r.is_valid);
    assert_eq!(r.errors, vec!["Manifest has no signatures".to_string()]);
    assert_eq!(r.checks[1].details, "No signatures found");

    let other = PublisherKeyMaterial::generate("other", "Other", "http://y", SignatureAlgorithm::Ed25519).unwrap();
    let sm = signed(&keys, b"m");
    let r = ManifestVerifier::verify(&sm, &other.identity, &Ok(b"m".to_vec()), &vec![Err(String::new())], NOW);
    assert!(!r.is_valid);
    assert_eq!(r.errors[0], "Publisher ID mismatch");
    assert_eq!(r.checks[0].details, "Expected: other, Got: pub-s");
}

#[test]
fn expired_manifest_only_warns() {
    let keys = PublisherKeyMaterial::generate("pub-e", "Pub", "http://x", SignatureAlgorithm::Ed25519).unwrap();
    let sm = signed(&keys, b"m");
    let later = NOW + MANIFEST_LIFETIME_SECS + 1;
    let r = ManifestVerifier::verify(&sm, &keys.identity, &Ok(b"m".to_vec()), &vec![Err(String::new())], later);
    assert!(r.is_valid);
    assert_eq!(r.warnings, vec!["Manifest has expired".to_string()]);
    assert!(!r.checks[3].passed);
    assert_eq!(r.checks[3].details, "Expires: 2023-12-14 22:13:20 UTC");
}

#[test]
fn serialization_error_is_reported() {
    let keys = PublisherKeyMaterial::generate("pub-z", "Pub", "http://x", SignatureAlgorithm::Ed25519).unwrap();
    let sm = signed(&keys, b"m");
    let r = ManifestVerifier::verify(&sm, &keys.identity, &Err("boom".to_string()), &vec![Err(String::new())], NOW);
    assert!(!r.is_valid);
    assert_eq!(r.errors, vec!["Cannot serialize manifest: boom".to_string()]);
}

#[test]
fn bad_base64_signature_is_a_serialization_error() {
    let keys = PublisherKeyMaterial::generate("pub-b", "Pub", "http://x", SignatureAlgorithm::Ed25519).unwrap();
    let mut sm = signed(&keys, b"m");
    sm.signatures[0].signature = "!!!!".to_string();
    let r = ManifestVerifier::verify(&sm, &keys.identity, &Ok(b"m".to_vec()), &vec![Err(String::new())], NOW);
    assert_eq!(
        r.checks[2].details,
        "Verification failed: Serialization error: Invalid base64 signature: Invalid symbol 33, offset 0."
    );
}

#[test]
fn missing_key_is_reported() {
    let keys = PublisherKeyMaterial::generate("pub-k", "Pub", "http://x", SignatureAlgorithm::Ed25519).unwrap();
    let sm = signed(&keys, b"m");
    let mut identity = keys.identity.clone();
    identity.ed25519_public_key = None;
    let r = ManifestVerifier::verify(&sm, &identity, &Ok(b"m".to_vec()), &vec![Err(String::new())], NOW);
    assert_eq!(r.checks[2].details, "Verification failed: Invalid key format: No Ed25519 public key");
}

#[test]
fn file_integrity_check() {
    let m = ManifestBuilder::build_manifest("app", "1.0.0", None, &files(), "pub", None, NOW);
    let entry = &m.files[0];
    let ok = ManifestVerifier::verify_file_integrity(Some(&b"binary"[..]), entry);
    assert!(ok.passed);
    assert_eq!(ok.name, "File Integrity: app-1.0.0.bin");
    assert_eq!(ok.details, format!("Hash verified (Blake3): {}", entry.hash));
    let bad = ManifestVerifier::verify_file_integrity(Some(&b"malware"[..]), entry);
    assert!(!bad.passed);
    assert_eq!(bad.details, "Hash mismatch - file may be tampered");
    let missing = ManifestVerifier::verify_file_integrity(None, entry);
    assert!(!missing.passed);
}

#[test]
fn missing_key_material_cannot_sign() {
    let mut keys = PublisherKeyMaterial::generate("pub-n", "Pub", "http://x", SignatureAlgorithm::Ed25519).unwrap();
    keys.ed25519_keypair = None;
    let err = ManifestBuilder::sign_manifest(b"m", &keys, NOW).unwrap_err();
    assert_eq!(err.to_string(), "Invalid key format: No Ed25519 key");
}

fn byte_list(v: &serde_json::Value) -> Vec<u8> {
    v.as_array().unwrap().iter().map(|n| n.as_u64().unwrap() as u8).collect()
}

#[test]
fn hybrid_manifest_signature_is_stored_as_json_the_verifier_reads() {
    let keys =
        PublisherKeyMaterial::generate("pub-j", "Pub", "http://x", SignatureAlgorithm::HybridEd25519MlDsa65).unwrap();
    let bytes = b"hybrid manifest json";
    let sm = signed(&keys, bytes);
    let stored = base64::engine::general_purpose::STANDARD.decode(&sm.signatures[0].signature).unwrap();
    let value: serde_json::Value = serde_json::from_slice(&stored).unwrap();
    assert_eq!(value["algorithm"], "HybridEd25519MlDsa65");
    let parsed = HybridSignature {
        classical_signature: byte_list(&value["classical_signature"]),
        pq_signature: byte_list(&value["pq_signature"]),
        algorithm: SignatureAlgorithm::HybridEd25519MlDsa65,
    };
    let fresh = keys.hybrid_keypair.as_ref().unwrap().sign(bytes).unwrap();
    assert_eq!(parsed.classical_signature, fresh.classical_signature);
    let list = |b: &[u8]| b.iter().map(|x| x.to_string()).collect::<Vec<_>>().join(",");
    let expected = format!(
        "{{\"classical_signature\":[{}],\"pq_signature\":[{}],\"algorithm\":\"HybridEd25519MlDsa65\"}}",
        list(&parsed.classical_signature),
        list(&parsed.pq_signature)
    );
    assert_eq!(String::from_utf8(stored.clone()).unwrap(), expected);
    let r = ManifestVerifier::verify(&sm, &keys.identity, &Ok(bytes.to_vec()), &vec![Ok(parsed)], NOW);
    assert!(r.is_valid, "{:?}", r.errors);
}
