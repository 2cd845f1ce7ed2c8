use secure_update::crypto::{compute_sha3_256_hex, HybridKeyPair};
use secure_update::database::Database;
use secure_update::models::{package_message_bytes, CheckUpdateRequest, Platform, PublishPackageRequest, RegisterPublisherRequest};
use secure_update::server_api::{check_update, is_safe_component, publish_metadata, register_publisher, upload_package};
use secure_update::version::SemanticVersion;

fn registration(kp: &HybridKeyPair) -> RegisterPublisherRequest {
    RegisterPublisherRequest { display_name: "Acme Corp".to_string(), public_key: kp.public_key() }
}

fn publication(kp: &HybridKeyPair, data: &[u8], version: SemanticVersion) -> PublishPackageRequest {
    PublishPackageRequest {
        app_id: "app".to_string(),
        version,
        publisher_id: kp.publisher_id.clone(),
        sha3_256_hash: compute_sha3_256_hex(data),
        file_size: data.len() as u64,
        filename: "app.pkg".to_string(),
        description: "d".to_string(),
        target_platforms: vec![Platform::LinuxX86_64],
        signature: kp
            .sign(&package_message_bytes("app", &version, "app.pkg", &compute_sha3_256_hex(data)))
            .unwrap(),
        min_upgrade_from: None,
        changelog: vec!["fix".to_string()],
    }
}

#[test]
fn key_registration_is_checked_and_unique() {
    let kp = HybridKeyPair::generate("acme").unwrap();
    let mut db = Database::new();

    let e = register_publisher(&mut db, &registration(&kp), "mallory", 5).unwrap_err();
    assert_eq!(e.status.code(), 403);
    assert_eq!(e.error, "Key publisher_id 'acme' does not match session publisher_id 'mallory'");
    assert!(db.get_publisher("acme").is_none());

    assert_eq!(register_publisher(&mut db, &registration(&kp), "acme", 5).unwrap().code(), 201);
    let p = db.get_publisher("acme").unwrap();
    assert_eq!(p.display_name, "Acme Corp");
    assert_eq!(p.registered_at, 5);
    assert!(p.active);

    let e = register_publisher(&mut db, &registration(&kp), "acme", 6).unwrap_err();
    assert_eq!((e.status.code(), e.error.as_str()), (500, "Failed to insert publisher"));
    assert_eq!(db.list_publishers().len(), 1);
}

#[test]
fn published_package_is_offered_to_older_clients() {
    let kp = HybridKeyPair::generate("acme").unwrap();
    let mut db = Database::new();
    let data: &[u8] = b"package bytes v2";
    let req = publication(&kp, data, SemanticVersion::new(2, 0, 0));

    let e = publish_metadata(&mut db, &req, "acme", 9).unwrap_err();
    assert_eq!((e.status.code(), e.error.as_str()), (404, "Publisher keys not found. Register keys first."));
    assert!(db.get_latest_package("app").is_none());

    register_publisher(&mut db, &registration(&kp), "acme", 1).unwrap();
    let mut altered = publication(&kp, data, SemanticVersion::new(2, 0, 0));
    altered.version = SemanticVersion::new(9, 9, 9);
    let e = publish_metadata(&mut db, &altered, "acme", 9).unwrap_err();
    assert_eq!(e.error, "Signature verification failed");
    assert!(db.get_latest_package("app").is_none());

    let id = publish_metadata(&mut db, &req, "acme", 9).unwrap();
    assert_eq!(id.len(), 36);
    let latest = db.get_latest_package("app").unwrap();
    assert_eq!(latest.package_id, id);
    assert_eq!(latest.published_at, 9);

    let ask = CheckUpdateRequest {
        app_id: "app".to_string(),
        current_version: SemanticVersion::new(1, 0, 0),
        platform: Platform::LinuxX86_64,
    };
    let answer = check_update(&db, "app", &ask);
    assert!(answer.update_available);
    assert_eq!(answer.latest_package.unwrap().package_id, id);
    assert_eq!(answer.publisher_public_key.unwrap().ed25519_public_key, kp.public_key().ed25519_public_key);
}

#[test]
fn upload_follows_published_metadata() {
    let kp = HybridKeyPair::generate("acme").unwrap();
    let mut db = Database::new();
    let data: &[u8] = b"package bytes v2";
    register_publisher(&mut db, &registration(&kp), "acme", 1).unwrap();

    let e = upload_package(&db, "acme", "app", "2.0.0", "acme", data).unwrap_err();
    assert_eq!((e.status.code(), e.error.as_str()), (404, "Package metadata not found. Publish metadata first."));

    publish_metadata(&mut db, &publication(&kp, data, SemanticVersion::new(2, 0, 0)), "acme", 9).unwrap();

    let e = upload_package(&db, "acme", "app", "2.0.0", "mallory", data).unwrap_err();
    assert_eq!((e.status.code(), e.error.as_str()), (403, "Publisher ID mismatch with session"));
    let e = upload_package(&db, "acme", "app", "2.0.0", "acme", b"").unwrap_err();
    assert_eq!((e.status.code(), e.error.as_str()), (400, "Empty package body"));
    let e = upload_package(&db, "acme", "../etc", "2.0.0", "acme", data).unwrap_err();
    assert_eq!((e.status.code(), e.error.as_str()), (400, "Invalid path component"));
    let e = upload_package(&db, "acme", "app", "..", "acme", data).unwrap_err();
    assert_eq!((e.status.code(), e.error.as_str()), (400, "Invalid path component"));
    let e = upload_package(&db, "acme", "app", "2.0", "acme", data).unwrap_err();
    assert_eq!((e.status.code(), e.error.as_str()), (400, "Invalid version format: '2.0' (expected X.Y.Z)"));
    let e = upload_package(&db, "acme", "app", "3.0.0", "acme", data).unwrap_err();
    assert_eq!(e.status.code(), 404);
    let e = upload_package(&db, "acme", "app", "2.0.0", "acme", b"tampered").unwrap_err();
    assert_eq!((e.status.code(), e.error.as_str()), (400, "Package verification failed"));
    assert_eq!(
        e.details.unwrap(),
        format!("Hash mismatch: expected {}, got {}", compute_sha3_256_hex(data), compute_sha3_256_hex(b"tampered"))
    );

    let digest = upload_package(&db, "acme", "app", "2.0.0", "acme", data).unwrap();
    assert_eq!(digest, compute_sha3_256_hex(data));

    let other = HybridKeyPair::generate("zeta").unwrap();
    register_publisher(&mut db, &registration(&other), "zeta", 2).unwrap();
    let e = upload_package(&db, "zeta", "app", "2.0.0", "zeta", data).unwrap_err();
    assert_eq!((e.status.code(), e.error.as_str()), (403, "Package metadata belongs to another publisher"));
}

#[test]
fn path_components_are_checked() {
    assert!(is_safe_component("app"));
    assert!(is_safe_component("1.0.0"));
    assert!(is_safe_component("..."));
    assert!(!is_safe_component(""));
    assert!(!is_safe_component("."));
    assert!(!is_safe_component(".."));
    assert!(!is_safe_component("a/b"));
    assert!(!is_safe_component("/etc"));
    assert!(!is_safe_component("a\\b"));
}
