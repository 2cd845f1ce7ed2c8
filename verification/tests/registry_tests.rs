use secure_update::core_types::SignatureAlgorithm;
use secure_update::key_management::{KeyStore, PublisherIdentity, PublisherKeyMaterial};
use secure_update::rate_limit::RateLimiter;
use secure_update::rollback::VersionHistory;
use secure_update::server_registry::{RegisteredServer, ServerRegistry, TrustLevel};

fn identity(id: &str) -> PublisherIdentity {
    PublisherIdentity {
        id: id.to_string(),
        name: format!("{} name", id),
        description: None,
        server_url: "http://s".to_string(),
        algorithm: SignatureAlgorithm::Ed25519,
        ed25519_public_key: None,
        ml_dsa_public_key: None,
        key_id: format!("{}-key", id),
        created_at: 0,
    }
}

#[test]
fn key_store_holds_one_identity_per_publisher() {
    let mut store = KeyStore::new();
    store.add_publisher(identity("a"));
    store.add_publisher(identity("b"));
    let mut again = identity("a");
    again.name = "renamed".to_string();
    store.add_publisher(again);
    assert_eq!(store.list_publishers().len(), 2);
    assert_eq!(store.get_publisher("a").unwrap().name, "renamed");
    assert!(store.remove_publisher("a").is_some());
    assert!(store.get_publisher("a").is_none());
    assert!(!store.is_key_revoked("k1"));
    store.revoke_key("k1");
    assert!(store.is_key_revoked("k1"));
}

#[test]
fn generated_key_material_is_consistent() {
    let m = PublisherKeyMaterial::generate("id", "Name", "http://u", SignatureAlgorithm::Ed25519).unwrap();
    assert!(m.ed25519_keypair.is_some() && m.ml_dsa_keypair.is_none());
    assert_eq!(m.identity.key_id, m.ed25519_keypair.as_ref().unwrap().key_id);
    let m = PublisherKeyMaterial::generate("id", "Name", "http://u", SignatureAlgorithm::HybridEd25519MlDsa65).unwrap();
    assert!(m.identity.ed25519_public_key.is_some() && m.identity.ml_dsa_public_key.is_some());
}

#[test]
fn rate_limiter_window() {
    let mut rl = RateLimiter::new();
    for t in 0..5u64 {
        assert!(rl.check_and_record("k", t));
    }
    assert!(!rl.check_and_record("k", 10));
    assert_eq!(rl.attempts_count("k", 10), 5);
    assert!(rl.check_and_record("k", 60_001));
    rl.reset("k");
    assert_eq!(rl.attempts_count("k", 60_002), 0);
}

#[test]
fn rollback_history() {
    let mut h = VersionHistory::new("app");
    assert_eq!(h.current_version, "0.0.0");
    for v in ["1.0.0", "1.1.0", "1.2.0", "1.3.0", "1.4.0", "1.5.0"] {
        h.record_installation_at(v, vec![], "hash", 1);
    }
    assert_eq!(h.installed_versions.len(), 5);
    assert_eq!(h.current_version, "1.5.0");
    assert!(h.is_downgrade("1.4.0"));
    assert!(h.is_downgrade("1.5.0"));
    assert!(!h.is_downgrade("1.6.0"));
    let targets: Vec<String> = h.rollback_targets().iter().map(|v| v.version.clone()).collect();
    assert_eq!(targets, vec!["1.1.0", "1.2.0", "1.3.0", "1.4.0"]);
}

fn server(id: &str, enabled: bool) -> RegisteredServer {
    RegisteredServer {
        url: format!("http://{}", id),
        publisher: identity(id),
        enabled,
        last_checked: None,
        trust_level: TrustLevel::TrustOnFirstUse,
    }
}

#[test]
fn registry_keeps_one_server_per_publisher() {
    let mut r = ServerRegistry::new("servers.json");
    r.add_server(server("a", true));
    r.add_server(server("b", false));
    r.add_server(server("a", false));
    assert_eq!(r.servers.len(), 2);
    assert!(!r.get_server("a").unwrap().enabled);
    assert_eq!(r.enabled_servers().len(), 0);
    assert!(r.remove_server("b"));
    assert!(!r.remove_server("b"));
}

#[test]
fn downgrade_check_compares_versions_not_texts() {
    let h = VersionHistory {
        package_name: "app".into(),
        current_version: "9.0.0".into(),
        installed_versions: vec![],
        max_history: 5,
    };
    assert!(!h.is_downgrade("10.0.0"));
    assert!(h.is_downgrade("9.0.0"));
    assert!(h.is_downgrade("8.1.0"));
    assert!(h.is_downgrade("not-a-version"));
}
