use secure_update::crypto::{compute_sha3_256_hex, HybridKeyPair};
use secure_update::models::Platform;
use secure_update::publisher_session::{LogLevel, PublishRecord, PublishReply, PublisherSession, Screen};
use secure_update::server_registry::{discovered_server, info_url, ServerInfoReply, ServerRegistry, TrustLevel};
use secure_update::core_types::SignatureAlgorithm;
use secure_update::version::SemanticVersion;

#[test]
fn session_login_logout_cycle() {
    let mut s = PublisherSession::new(vec![]);
    assert_eq!(s.screen, Screen::Login);
    s.password = "secret".to_string();
    s.login_succeeded(Some("tok".to_string()), Some("acme".to_string()), "12:00:00");
    assert_eq!(s.screen, Screen::Main);
    assert_eq!(s.auth_token.as_deref(), Some("tok"));
    assert!(s.password.is_empty());
    assert_eq!(s.logs.len(), 1);
    assert_eq!(s.logs[0].msg, "✅ Logged in");
    s.logout("12:01:00");
    assert!(s.auth_token.is_none() && s.session_publisher_id.is_none());
    assert_eq!(s.screen, Screen::Login);
    assert_eq!(s.logs[1].level, LogLevel::Info);
}

#[test]
fn session_log_keeps_newest_200() {
    let mut s = PublisherSession::new(vec![]);
    for i in 0..205 {
        s.log(LogLevel::Info, &format!("entry {}", i), "t");
    }
    assert_eq!(s.logs.len(), 200);
    assert_eq!(s.logs[0].msg, "entry 5");
    assert_eq!(s.logs[199].msg, "entry 204");
}

#[test]
fn session_account_form_and_errors() {
    let mut s = PublisherSession::new(vec![]);
    s.password = "abcdef".to_string();
    s.password_confirm = "abcdeg".to_string();
    assert_eq!(s.check_account_form().unwrap_err(), "Passwords do not match");
    s.password_confirm = "abcdef".to_string();
    assert!(s.check_account_form().is_ok());
    s.password = "abc".to_string();
    s.password_confirm = "abc".to_string();
    assert_eq!(s.check_account_form().unwrap_err(), "Password must be at least 6 characters");
    s.login_refused("bad creds");
    assert_eq!(s.auth_error, "Login failed: bad creds");
    s.connection_failed("refused");
    assert_eq!(s.auth_error, "Connection error: refused");
    s.account_refused("taken");
    assert_eq!(s.auth_error, "Failed: taken");
    s.account_created("t");
    assert_eq!(s.screen, Screen::Login);
}

#[test]
fn session_publish_readiness_and_history() {
    let mut s = PublisherSession::new(vec![]);
    assert!(!s.publish_ready());
    s.select_file("/tmp/app.bin", b"data");
    assert_eq!(s.selected_file_size, 4);
    assert_eq!(s.selected_file_hash, compute_sha3_256_hex(b"data"));
    assert!(!s.publish_ready());
    s.app_id = "app".to_string();
    assert!(s.publish_ready());
    let before = PublishRecord {
        app_id: "old".to_string(),
        version: "0.1.0".to_string(),
        publisher_id: "acme".to_string(),
        hash: "h".to_string(),
        timestamp: "then".to_string(),
        server: "http://s".to_string(),
    };
    let s = PublisherSession::new(vec![before]);
    assert_eq!(s.publish_history.len(), 1);
    assert_eq!(s.publish_history[0].app_id, "old");
}

#[test]
fn discovered_servers_are_trusted_on_first_use() {
    assert_eq!(info_url("http://s//"), "http://s/api/info");
    let reply = ServerInfoReply {
        publisher_id: Some("acme".to_string()),
        publisher_name: None,
        algorithm: Some("HybridEd25519MlDsa65".to_string()),
        ed25519_public_key: Some("ed".to_string()),
        ml_dsa_public_key: None,
        key_id: None,
    };
    let s = discovered_server("http://s", &reply, 9);
    assert_eq!(s.publisher.id, "acme");
    assert_eq!(s.publisher.name, "Unknown");
    assert_eq!(s.publisher.key_id, "unknown");
    assert_eq!(s.publisher.algorithm, SignatureAlgorithm::HybridEd25519MlDsa65);
    assert_eq!(s.trust_level, TrustLevel::TrustOnFirstUse);
    assert_eq!(s.last_checked, Some(9));

    let odd = ServerInfoReply { algorithm: Some("rot13".to_string()), ..reply.clone() };
    assert_eq!(discovered_server("u", &odd, 0).publisher.algorithm, SignatureAlgorithm::Ed25519);

    let mut registry = ServerRegistry::new("servers.json");
    assert_eq!(registry.discover_and_add("http://s", None, 1).unwrap_err(), "Invalid server response");
    let added = registry.discover_and_add("http://s", Some(&reply), 1).unwrap();
    assert_eq!(added.url, "http://s");
    registry.discover_and_add("http://mirror", Some(&reply), 2).unwrap();
    assert_eq!(registry.servers.len(), 1);
    assert_eq!(registry.get_server("acme").unwrap().url, "http://mirror");
}

#[test]
fn versions_order_by_major_minor_patch() {
    let mut v = vec![SemanticVersion::new(1, 10, 0), SemanticVersion::new(1, 2, 3), SemanticVersion::new(0, 9, 9)];
    v.sort();
    assert_eq!(v, vec![SemanticVersion::new(0, 9, 9), SemanticVersion::new(1, 2, 3), SemanticVersion::new(1, 10, 0)]);
    assert!(SemanticVersion::new(2, 0, 0) > SemanticVersion::new(1, 99, 99));
}

fn publishing_session() -> PublisherSession {
    let mut s = PublisherSession::new(vec![]);
    s.loaded_keypair = Some(HybridKeyPair::generate("acme").unwrap());
    s.auth_token = Some("token".to_string());
    s.app_id = "app".to_string();
    s.version = "1.2.0".to_string();
    s.select_file("/build/app-1.2.0.bin", b"old contents");
    s
}

#[test]
fn publication_needs_keys_login_file_and_version() {
    let data: &[u8] = b"release bytes";
    let mut s = publishing_session();
    s.loaded_keypair = None;
    assert!(s.begin_publish(data, "d", "", Platform::LinuxX86_64, "t").is_none());
    assert!(s.logs.is_empty());

    let mut s = publishing_session();
    s.auth_token = None;
    assert!(s.begin_publish(data, "d", "", Platform::LinuxX86_64, "t").is_none());
    assert_eq!(s.logs.last().unwrap().msg, "Not logged in");

    let mut s = publishing_session();
    s.selected_file = None;
    assert!(s.begin_publish(data, "d", "", Platform::LinuxX86_64, "t").is_none());
    assert!(s.logs.is_empty());

    let mut s = publishing_session();
    s.version = "1.2".to_string();
    assert!(s.begin_publish(data, "d", "", Platform::LinuxX86_64, "t").is_none());
    assert_eq!(s.logs.last().unwrap().msg, "Bad version: Invalid version format: '1.2' (expected X.Y.Z)");
    assert!(s.publish_history.is_empty());

    let mut s = publishing_session();
    let req = s.begin_publish(data, "desc", "first\n\n  second  \n", Platform::LinuxX86_64, "t").unwrap();
    assert_eq!(req.app_id, "app");
    assert_eq!(req.version, SemanticVersion::new(1, 2, 0));
    assert_eq!(req.filename, "app-1.2.0.bin");
    assert_eq!(req.sha3_256_hash, compute_sha3_256_hex(data));
    assert_eq!(req.changelog, vec!["first".to_string(), "second".to_string()]);
    assert_eq!(s.selected_file_hash, compute_sha3_256_hex(data));
    let msgs: Vec<String> = s.logs.iter().map(|l| l.msg.clone()).collect();
    assert_eq!(
        msgs,
        vec![
            format!("SHA3-256: {}", compute_sha3_256_hex(data)),
            "Signing with Dilithium3 + Ed25519…".to_string(),
            "✅ Signed".to_string(),
        ]
    );
}

#[test]
fn publication_replies_decide_upload_and_record() {
    let data: &[u8] = b"release bytes";
    let mut s = publishing_session();
    s.begin_publish(data, "d", "", Platform::LinuxX86_64, "t0").unwrap();
    assert!(!s.metadata_replied(&PublishReply::Refused("bad signature".to_string()), "t1"));
    assert_eq!(s.logs.last().unwrap().msg, "Metadata: bad signature");
    assert_eq!(s.logs.last().unwrap().level, LogLevel::Error);
    assert!(!s.metadata_replied(&PublishReply::Unreachable("timeout".to_string()), "t2"));
    assert!(s.metadata_replied(&PublishReply::Accepted("id-1".to_string()), "t3"));
    assert_eq!(s.logs.last().unwrap().msg, "✅ Metadata published! ID: id-1");

    s.upload_replied(&PublishReply::Refused("hash mismatch".to_string()), "2024-01-01", "t4");
    assert_eq!(s.logs.last().unwrap().msg, "Upload: hash mismatch");
    assert!(s.publish_history.is_empty());
    s.upload_replied(&PublishReply::Accepted("ok".to_string()), "2024-01-02", "t5");
    assert_eq!(s.logs.last().unwrap().msg, "✅ Uploaded and published");
    assert_eq!(s.publish_history.len(), 1);
    let r = &s.publish_history[0];
    assert_eq!((r.app_id.as_str(), r.version.as_str(), r.publisher_id.as_str()), ("app", "1.2.0", "acme"));
    assert_eq!(r.hash, compute_sha3_256_hex(data));
    assert_eq!(r.timestamp, "2024-01-02");
    assert_eq!(r.server, "http://127.0.0.1:8443");
}
