use secure_update::crypto::{compute_sha3_256_hex, CryptoFailure, HybridKeyPair};
use secure_update::models::{package_message_bytes, Platform, PublishPackageRequest, PublisherInfo, RegisterPublisherRequest, PackageMetadata};
use secure_update::rate_limit::RateLimiter;
use secure_update::server_api::{
    begin_login, check_update_response, extract_token, finish_login, login_rate_key,
    new_publisher_info, review_publication, session_outcome, validate_account_request,
    verify_package_metadata, verify_publisher_authorization, download_disposition, authorize_key_registration,
    ApiStatus, PackageStorage,
};
use secure_update::server_auth::{generate_salt, generate_session_token, hash_password, verify_password, RegisterAccountRequest};
use secure_update::version::SemanticVersion;
use sha3::Digest;

fn account(username: &str, password: &str, publisher_id: &str) -> RegisterAccountRequest {
    RegisterAccountRequest {
        username: username.to_string(),
        password: password.to_string(),
        publisher_id: publisher_id.to_string(),
        display_name: "Display".to_string(),
    }
}

#[test]
fn password_digest_matches_sha3_of_salt_password_pepper() {
    let mut h = sha3::Sha3_256::new();
    h.update(b"salt");
    h.update("pässword".as_bytes());
    h.update(b"secure-update-system-2026");
    let expected = hex::encode(h.finalize());
    assert_eq!(hash_password("pässword", "salt"), expected);
    assert!(verify_password("pässword", "salt", &expected));
    assert!(!verify_password("password", "salt", &expected));
    assert!(!verify_password("pässword", "other", &expected));
}

#[test]
fn salts_and_tokens_are_random_hex() {
    let a = generate_salt();
    let b = generate_salt();
    assert_eq!(a.len(), 64);
    assert_ne!(a, b);
    let t = generate_session_token();
    assert_eq!(t.len(), 128);
    assert!(t.chars().all(|c| c.is_ascii_hexdigit() && !c.is_ascii_uppercase()));
}

#[test]
fn bearer_tokens_are_extracted() {
    assert_eq!(extract_token(Some("Bearer abc")), Some("abc".to_string()));
    assert_eq!(extract_token(Some("Bearer ")), Some(String::new()));
    assert_eq!(extract_token(Some("bearer abc")), None);
    assert_eq!(extract_token(None), None);
}

#[test]
fn sessions_are_checked() {
    let ok = session_outcome(Ok(Some(("alice".to_string(), "acme".to_string())))).unwrap();
    assert_eq!(ok, ("alice".to_string(), "acme".to_string()));
    let e = session_outcome(Ok(None)).unwrap_err();
    assert_eq!((e.status.code(), e.error.as_str()), (401, "Invalid or expired session"));
    let e = session_outcome(Err("db down".to_string())).unwrap_err();
    assert_eq!(e.status, ApiStatus::InternalServerError);
}

#[test]
fn account_requests_are_validated() {
    let e = validate_account_request(&account("  ", "password1", "acme")).unwrap_err();
    assert_eq!(e.error, "username and publisher_id required");
    let e = validate_account_request(&account("alice", "short", "acme")).unwrap_err();
    assert_eq!(e.error, "Password must be at least 8 characters");
    assert_eq!(e.status.code(), 400);
    // eight bytes, four characters
    assert!(validate_account_request(&account("alice", "żżżż", "acme")).is_ok());
    assert!(validate_account_request(&account("alice", "password", "acme")).is_ok());
}

#[test]
fn login_is_rate_limited_per_ip_and_user() {
    let mut limiter = RateLimiter::new();
    assert_eq!(login_rate_key("10.0.0.1", "alice"), "10.0.0.1:alice");
    for i in 0..5u64 {
        assert!(begin_login(&mut limiter, "10.0.0.1", "alice", 1000 + i).is_ok());
    }
    let e = begin_login(&mut limiter, "10.0.0.1", "alice", 2000).unwrap_err();
    assert_eq!(e.status.code(), 429);
    assert_eq!(e.error, "Too many login attempts. Wait 60 seconds.");
    assert!(begin_login(&mut limiter, "10.0.0.2", "alice", 2000).is_ok());
    // after the window has passed
    assert!(begin_login(&mut limiter, "10.0.0.1", "alice", 70_000).is_ok());
}

#[test]
fn successful_login_forgets_attempts() {
    let mut limiter = RateLimiter::new();
    let key = begin_login(&mut limiter, "ip", "bob", 1).unwrap();
    let e = finish_login(&mut limiter, &key, Ok(None)).unwrap_err();
    assert_eq!(e.error, "Invalid username or password");
    assert_eq!(limiter.attempts_count(&key, 2), 1);
    let who = finish_login(&mut limiter, &key, Ok(Some(("bob".to_string(), "pub".to_string())))).unwrap();
    assert_eq!(who.1, "pub");
    assert_eq!(limiter.attempts_count(&key, 3), 0);
}

fn metadata(version: SemanticVersion) -> PackageMetadata {
    let kp = HybridKeyPair::generate("acme").unwrap();
    let sig = kp.sign(b"pkg").unwrap();
    PackageMetadata {
        package_id: "id".to_string(),
        app_id: "app".to_string(),
        version,
        publisher_id: "acme".to_string(),
        sha3_256_hash: compute_sha3_256_hex(b"pkg"),
        file_size: 3,
        filename: "app.pkg".to_string(),
        description: String::new(),
        target_platforms: vec![Platform::LinuxX86_64],
        signature: sig,
        published_at: 0,
        min_upgrade_from: None,
        changelog: vec![],
    }
}

#[test]
fn update_check_answers() {
    let kp = HybridKeyPair::generate("acme").unwrap();
    let r = check_update_response(Some(metadata(SemanticVersion::new(1, 2, 0))), &SemanticVersion::new(1, 1, 9), Some(kp.public_key()));
    assert!(r.update_available && r.latest_package.is_some() && r.publisher_public_key.is_some());
    let r = check_update_response(Some(metadata(SemanticVersion::new(1, 2, 0))), &SemanticVersion::new(1, 2, 0), Some(kp.public_key()));
    assert!(!r.update_available && r.latest_package.is_none() && r.publisher_public_key.is_none());
    let r = check_update_response(None, &SemanticVersion::new(0, 0, 1), None);
    assert!(!r.update_available);
}

#[test]
fn registrations_belong_to_the_session() {
    let kp = HybridKeyPair::generate("acme").unwrap();
    let req = RegisterPublisherRequest { display_name: "Acme".to_string(), public_key: kp.public_key() };
    let e = authorize_key_registration(&req, "evil").unwrap_err();
    assert_eq!(e.status.code(), 403);
    assert_eq!(e.error, "Key publisher_id 'acme' does not match session publisher_id 'evil'");
    assert!(authorize_key_registration(&req, "acme").is_ok());
    let info = new_publisher_info(&req, 42);
    assert!(info.active);
    assert_eq!(info.registered_at, 42);
    assert_eq!(info.id, "acme");
    assert!(verify_publisher_authorization(&info, "app").unwrap());
}

fn publish_request(kp: &HybridKeyPair, data: &[u8]) -> PublishPackageRequest {
    PublishPackageRequest {
        app_id: "app".to_string(),
        version: SemanticVersion::new(1, 0, 0),
        publisher_id: kp.publisher_id.clone(),
        sha3_256_hash: compute_sha3_256_hex(data),
        file_size: data.len() as u64,
        filename: "app.pkg".to_string(),
        description: "d".to_string(),
        target_platforms: vec![Platform::LinuxX86_64],
        signature: kp
            .sign(&package_message_bytes("app", &SemanticVersion::new(1, 0, 0), "app.pkg", &compute_sha3_256_hex(data)))
            .unwrap(),
        min_upgrade_from: None,
        changelog: vec!["fix".to_string()],
    }
}

fn publisher(kp: &HybridKeyPair, active: bool) -> PublisherInfo {
    PublisherInfo {
        id: kp.publisher_id.clone(),
        display_name: "P".to_string(),
        public_key: kp.public_key(),
        registered_at: 0,
        active,
    }
}

#[test]
fn publication_review() {
    let kp = HybridKeyPair::generate("acme").unwrap();
    let data: &[u8] = b"package bytes";
    let req = publish_request(&kp, data);

    let m = review_publication(&req, "acme", Ok(Some(publisher(&kp, true))), 77).unwrap();
    assert_eq!(m.package_id.len(), 36);
    assert_eq!(m.published_at, 77);
    assert_eq!(m.changelog, vec!["fix".to_string()]);

    let e = review_publication(&req, "other", Ok(Some(publisher(&kp, true))), 77).unwrap_err();
    assert_eq!(e.error, "Publisher ID mismatch with session");
    let e = review_publication(&req, "acme", Ok(None), 77).unwrap_err();
    assert_eq!((e.status.code(), e.error.as_str()), (404, "Publisher keys not found. Register keys first."));
    let e = review_publication(&req, "acme", Ok(Some(publisher(&kp, false))), 77).unwrap_err();
    assert_eq!(e.error, "Publisher account is deactivated");

    let mut altered = publish_request(&kp, data);
    altered.version = SemanticVersion::new(9, 9, 9);
    let e = review_publication(&altered, "acme", Ok(Some(publisher(&kp, true))), 77).unwrap_err();
    assert_eq!(e.error, "Signature verification failed");
    assert_eq!(e.details.unwrap(), "Dilithium3: ✗ INVALID | Ed25519: ✗ INVALID | Overall: ✗ FAILED");

    let other = HybridKeyPair::generate("acme").unwrap();
    let e = review_publication(&req, "acme", Ok(Some(publisher(&other, true))), 77).unwrap_err();
    assert_eq!(e.details.unwrap(), "Dilithium3: ✗ INVALID | Ed25519: ✗ INVALID | Overall: ✗ FAILED");

    let mut broken = publisher(&kp, true);
    broken.public_key.ed25519_public_key = "???".to_string();
    let e = review_publication(&req, "acme", Ok(Some(broken)), 77).unwrap_err();
    assert_eq!(e.status.code(), 500);
    assert_eq!(e.error, "Verification error: Failed to decode Ed25519 public key");
}

#[test]
fn package_metadata_check() {
    let kp = HybridKeyPair::generate("acme").unwrap();
    let m = metadata(SemanticVersion::new(1, 0, 0));
    let p = publisher(&kp, true);
    let r = verify_package_metadata(&m, &p, b"different").unwrap();
    assert!(!r.hash_valid && !r.overall_valid);
    let mut m2 = metadata(SemanticVersion::new(1, 0, 0));
    m2.signature = kp
        .sign(&package_message_bytes("app", &SemanticVersion::new(1, 0, 0), "app.pkg", &compute_sha3_256_hex(b"pkg")))
        .unwrap();
    let r = verify_package_metadata(&m2, &p, b"pkg").unwrap();
    assert!(r.hash_valid && r.overall_valid);
    let mut bad = publisher(&kp, true);
    bad.public_key.dilithium_public_key = "@@".to_string();
    assert_eq!(verify_package_metadata(&m2, &bad, b"pkg").unwrap_err(), CryptoFailure::DilithiumPublicKeyEncoding);
}

#[test]
fn storage_paths() {
    let s = PackageStorage::new("/srv/packages");
    assert_eq!(s.package_path("app", "1.0.0"), "/srv/packages/app/1.0.0.pkg");
    let s = PackageStorage::new("data/");
    assert_eq!(s.package_path("app", "2.0.0"), "data/app/2.0.0.pkg");
    assert_eq!(s.package_path("/etc", "x"), "/etc/x.pkg");
    assert!(!PackageStorage::new("/nonexistent-dir-for-tests").package_exists("a", "b"));
    assert_eq!(download_disposition("app", "1.0.0"), "attachment; filename=\"app-1.0.0.pkg\"");
}
