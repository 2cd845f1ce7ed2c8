use secure_update::client_state::{
    decide_update, get_installed_app, install_dir_for, installed_version, pin_publisher_key, record_installation,
    remove_installation, UpdateDecision,
};
use secure_update::crypto::HybridKeyPair;
use secure_update::models::{CheckUpdateResponse, ClientConfig, InstalledApp};
use secure_update::version::SemanticVersion;

fn installed(server: &str, app: &str, v: (u32, u32, u32)) -> InstalledApp {
    InstalledApp {
        server_url: server.to_string(),
        app_id: app.to_string(),
        installed_version: SemanticVersion::new(v.0, v.1, v.2),
        install_dir: format!("./installed/{}", app),
        installed_at: 1,
        last_verified_at: Some(1),
    }
}

#[test]
fn keys_are_pinned_on_first_use() {
    let mut config = ClientConfig::default();
    let a = HybridKeyPair::generate("acme").unwrap();
    let a2 = HybridKeyPair::generate("acme").unwrap();
    let b = HybridKeyPair::generate("beta").unwrap();
    assert!(pin_publisher_key(&mut config, "http://s1", a.public_key()));
    assert!(!pin_publisher_key(&mut config, "http://s1", a2.public_key()));
    assert!(pin_publisher_key(&mut config, "http://s1", b.public_key()));
    assert!(pin_publisher_key(&mut config, "http://s2", a2.public_key()));
    assert_eq!(config.pinned_publisher_keys_by_server.len(), 2);
    let s1 = &config.pinned_publisher_keys_by_server[0];
    assert_eq!(s1.0, "http://s1");
    assert_eq!(s1.1.len(), 2);
    assert_eq!(s1.1[0].ed25519_public_key, a.public_key().ed25519_public_key);
}

#[test]
fn one_record_per_installed_application() {
    let mut config = ClientConfig::default();
    assert_eq!(installed_version(&config, "http://s", "app"), SemanticVersion::new(0, 0, 0));
    record_installation(&mut config, installed("http://s", "app", (1, 0, 0)));
    record_installation(&mut config, installed("http://s", "other", (2, 0, 0)));
    record_installation(&mut config, installed("http://s", "app", (1, 1, 0)));
    assert_eq!(config.installed_apps.len(), 2);
    assert_eq!(installed_version(&config, "http://s", "app"), SemanticVersion::new(1, 1, 0));
    assert_eq!(config.current_version, SemanticVersion::new(1, 1, 0));
    assert_eq!(get_installed_app(&config, "http://s", "other").unwrap().installed_version, SemanticVersion::new(2, 0, 0));
    assert!(get_installed_app(&config, "http://elsewhere", "app").is_none());
    remove_installation(&mut config, "http://s", "app");
    assert!(get_installed_app(&config, "http://s", "app").is_none());
    assert_eq!(config.installed_apps.len(), 1);
    assert_eq!(install_dir_for("./installed//", "app"), "./installed/app");
}

#[test]
fn update_decisions() {
    let none = CheckUpdateResponse { update_available: false, latest_package: None, publisher_public_key: None };
    assert!(matches!(decide_update(none), UpdateDecision::UpToDate));
    let missing = CheckUpdateResponse { update_available: true, latest_package: None, publisher_public_key: None };
    match decide_update(missing) {
        UpdateDecision::Failed(e) => assert_eq!(e, "No metadata in response"),
        _ => panic!("expected a failure"),
    }
}
