use secure_update::crypto::{HybridPublicKey, HybridSignature};
use secure_update::database::Database;
use secure_update::models::{CheckUpdateRequest, PackageMetadata, Platform, PublisherInfo};
use secure_update::server_api::check_update;
use secure_update::version::SemanticVersion;

fn publisher(id: &str, name: &str) -> PublisherInfo {
    PublisherInfo {
        id: id.to_string(),
        display_name: name.to_string(),
        public_key: HybridPublicKey {
            publisher_id: id.to_string(),
            dilithium_public_key: "ZGls".to_string(),
            ed25519_public_key: "ZWQ=".to_string(),
        },
        registered_at: 1_700_000_000,
        active: true,
    }
}

fn package(package_id: &str, app_id: &str, version: SemanticVersion, description: &str) -> PackageMetadata {
    PackageMetadata {
        package_id: package_id.to_string(),
        app_id: app_id.to_string(),
        version,
        publisher_id: "acme".to_string(),
        sha3_256_hash: "00".repeat(32),
        file_size: 10,
        filename: format!("{}.pkg", package_id),
        description: description.to_string(),
        target_platforms: vec![Platform::CrossPlatform],
        signature: HybridSignature {
            dilithium_signature: "c2ln".to_string(),
            ed25519_signature: "c2ln".to_string(),
            publisher_id: "acme".to_string(),
            signed_at: "2024-01-01T00:00:00+00:00".to_string(),
        },
        published_at: 1_700_000_000,
        min_upgrade_from: None,
        changelog: vec!["fix".to_string()],
    }
}

#[test]
fn publisher_ids_are_unique() {
    let mut db = Database::new();
    assert!(db.register_publisher(publisher("acme", "Acme")).is_ok());
    assert!(db.register_publisher(publisher("zeta", "Zeta")).is_ok());
    let err = db.register_publisher(publisher("acme", "Other")).unwrap_err();
    assert_eq!(err, "Failed to insert publisher");

    let all = db.list_publishers();
    assert_eq!(all.len(), 2);
    assert_eq!(all[0].id, "acme");
    assert_eq!(all[0].display_name, "Acme");
    assert_eq!(all[1].id, "zeta");

    let found = db.get_publisher("acme").unwrap();
    assert_eq!(found.display_name, "Acme");
    assert_eq!(found.public_key.ed25519_public_key, "ZWQ=");
    assert!(db.get_publisher("nobody").is_none());
}

#[test]
fn latest_package_has_greatest_version() {
    let mut db = Database::new();
    assert!(db.get_latest_package("app").is_none());
    db.save_package_metadata(package("p1", "app", SemanticVersion::new(1, 2, 0), "a"));
    db.save_package_metadata(package("p2", "app", SemanticVersion::new(1, 10, 0), "b"));
    db.save_package_metadata(package("p3", "app", SemanticVersion::new(1, 9, 9), "c"));
    db.save_package_metadata(package("q1", "other", SemanticVersion::new(9, 0, 0), "d"));
    let latest = db.get_latest_package("app").unwrap();
    assert_eq!(latest.package_id, "p2");
    assert_eq!(latest.version, SemanticVersion::new(1, 10, 0));
    assert_eq!(latest.changelog, vec!["fix".to_string()]);
    assert_eq!(db.get_latest_package("other").unwrap().package_id, "q1");
    assert!(db.get_latest_package("missing").is_none());
}

#[test]
fn equal_versions_keep_first_saved() {
    let mut db = Database::new();
    db.save_package_metadata(package("first", "app", SemanticVersion::new(2, 0, 0), "a"));
    db.save_package_metadata(package("second", "app", SemanticVersion::new(2, 0, 0), "b"));
    assert_eq!(db.get_latest_package("app").unwrap().package_id, "first");
}

#[test]
fn saving_same_package_id_replaces_row() {
    let mut db = Database::new();
    db.save_package_metadata(package("p1", "app", SemanticVersion::new(3, 0, 0), "old"));
    db.save_package_metadata(package("p2", "app", SemanticVersion::new(2, 0, 0), "x"));
    db.save_package_metadata(package("p1", "app", SemanticVersion::new(1, 0, 0), "new"));
    let latest = db.get_latest_package("app").unwrap();
    assert_eq!(latest.package_id, "p2");
    db.save_package_metadata(package("p2", "app", SemanticVersion::new(0, 1, 0), "y"));
    let latest = db.get_latest_package("app").unwrap();
    assert_eq!(latest.package_id, "p1");
    assert_eq!(latest.description, "new");
}

fn request(version: SemanticVersion) -> CheckUpdateRequest {
    CheckUpdateRequest { app_id: "app".to_string(), current_version: version, platform: Platform::LinuxX86_64 }
}

#[test]
fn update_check_offers_latest_newer_package() {
    let mut db = Database::new();
    let none = check_update(&db, "app", &request(SemanticVersion::new(1, 0, 0)));
    assert!(!none.update_available && none.latest_package.is_none() && none.publisher_public_key.is_none());

    assert!(db.register_publisher(publisher("acme", "Acme")).is_ok());
    db.save_package_metadata(package("p1", "app", SemanticVersion::new(1, 1, 0), "a"));
    db.save_package_metadata(package("p2", "app", SemanticVersion::new(1, 3, 0), "b"));

    let offer = check_update(&db, "app", &request(SemanticVersion::new(1, 2, 0)));
    assert!(offer.update_available);
    assert_eq!(offer.latest_package.unwrap().package_id, "p2");
    assert_eq!(offer.publisher_public_key.unwrap().ed25519_public_key, "ZWQ=");

    let current = check_update(&db, "app", &request(SemanticVersion::new(1, 3, 0)));
    assert!(!current.update_available);
    assert!(current.latest_package.is_none() && current.publisher_public_key.is_none());
}

#[test]
fn update_check_without_registered_publisher_sends_no_key() {
    let mut db = Database::new();
    db.save_package_metadata(package("p1", "app", SemanticVersion::new(2, 0, 0), "a"));
    let offer = check_update(&db, "app", &request(SemanticVersion::new(1, 0, 0)));
    assert!(offer.update_available);
    assert!(offer.latest_package.is_some());
    assert!(offer.publisher_public_key.is_none());
}
