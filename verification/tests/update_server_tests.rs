use secure_update::core_types::SignatureAlgorithm;
use secure_update::key_management::PublisherKeyMaterial;
use secure_update::update_server::{download_url, publish_file_name, PackageStorage, ServerConfig, ServerInfo};

#[test]
fn storage_layout() {
    let s = PackageStorage::new("data/packages", "data/manifests");
    assert_eq!(s.get_package_path("app", "1.0.0"), "data/packages/app/1.0.0/app-1.0.0.bin");
    assert_eq!(s.manifest_path("app", "1.0.0"), "data/manifests/app/1.0.0.json");
    assert_eq!(s.manifests_dir_path(), "data/manifests");
    assert_eq!(publish_file_name("app", "2.0.0"), "app-2.0.0.bin");
    assert_eq!(download_url("app", "2.0.0"), "/api/packages/app/2.0.0/download");
}

#[test]
fn latest_manifest_has_the_greatest_version() {
    let names: Vec<String> =
        ["1.0.0.json", "1.9.0.json", "1.10.0.json", "notes.txt", ".json", "zzz"].iter().map(|s| s.to_string()).collect();
    assert_eq!(PackageStorage::latest_manifest_file(&names), Some("1.10.0.json".to_string()));
    let tens: Vec<String> = vec!["9.0.0.json".to_string(), "10.0.0.json".to_string(), "x.json".to_string()];
    assert_eq!(PackageStorage::latest_manifest_file(&tens), Some("10.0.0.json".to_string()));
    let ties: Vec<String> = vec!["2.0.0.json".to_string(), "2.0.00.json".to_string()];
    assert_eq!(PackageStorage::latest_manifest_file(&ties), Some("2.0.0.json".to_string()));
    let none: Vec<String> = vec!["a.txt".to_string(), ".json".to_string()];
    assert_eq!(PackageStorage::latest_manifest_file(&none), None);
    assert_eq!(PackageStorage::list_versions(&names), vec!["1.0.0", "1.9.0", "1.10.0", "notes", ".json", "zzz"]);
}

#[test]
fn config_defaults_and_algorithm_names() {
    let mut c = ServerConfig::default();
    assert_eq!(c.server.port, 8443);
    assert_eq!(c.bind_address(), "0.0.0.0:8443");
    assert_eq!(c.server_url(), "http://0.0.0.0:8443");
    assert_eq!(c.signature_algorithm(), SignatureAlgorithm::HybridEd25519MlDsa65);
    c.publisher.algorithm = "ed25519".to_string();
    assert_eq!(c.signature_algorithm(), SignatureAlgorithm::Ed25519);
    c.publisher.algorithm = "dilithium".to_string();
    assert_eq!(c.signature_algorithm(), SignatureAlgorithm::MlDsa65);
}

#[test]
fn server_info_reports_the_identity() {
    let keys = PublisherKeyMaterial::generate("srv", "Server", "http://s", SignatureAlgorithm::MlDsa65).unwrap();
    let info = ServerInfo::of_identity(&keys.identity);
    assert_eq!(info.algorithm, "MlDsa65");
    assert_eq!(info.publisher_id, "srv");
    assert!(info.ed25519_public_key.is_none());
    assert_eq!(info.ml_dsa_public_key, keys.identity.ml_dsa_public_key);
}

#[test]
fn packages_are_the_manifest_subdirectories() {
    let entries = vec![
        ("app".to_string(), true),
        ("README".to_string(), false),
        ("tool".to_string(), true),
    ];
    assert_eq!(PackageStorage::list_packages(&entries), vec!["app".to_string(), "tool".to_string()]);
    assert!(PackageStorage::list_packages(&vec![]).is_empty());
}
