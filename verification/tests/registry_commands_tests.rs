use secure_update::key_management::PublisherKeyMaterial;
use secure_update::server_registry::{RegisteredServer, ServerRegistry, TrustLevel};
use secure_update::update_client::{check_updates_url, verify_manifest};
use secure_update::update_server::{ManifestBuilder, PackageFile};
use secure_update::core_types::SignatureAlgorithm;

#[test]
fn registry_backed_commands() {

    let keys = PublisherKeyMaterial::generate("acme", "Acme", "http://s", SignatureAlgorithm::Ed25519).unwrap();
    let mut registry = ServerRegistry::new("servers.json");
    registry.add_server(RegisteredServer {
        url: "http://s/".to_string(),
        publisher: keys.identity.clone(),
        enabled: true,
        last_checked: None,
        trust_level: TrustLevel::Pinned,
    });
    assert_eq!(check_updates_url(&registry, "acme", "app").unwrap(), "http://s/api/packages/app/latest");
    assert_eq!(check_updates_url(&registry, "nobody", "app").unwrap_err(), "Server not found");

    let files = vec![PackageFile { path: "a".to_string(), contents: b"x".to_vec(), download_url: "/d".to_string() }];
    let m = ManifestBuilder::build_manifest("app", "1.0.0", None, &files, "acme", None, 0);
    let sm = ManifestBuilder::create_signed_manifest(m, &Ok(b"bytes".to_vec()), &keys, 0).unwrap();
    let r = verify_manifest(&registry, &sm, &Ok(b"bytes".to_vec()), &vec![Err(String::new())], 0).unwrap();
    assert!(r.is_valid);
    let mut foreign = sm.clone();
    foreign.manifest.publisher_id = "nobody".to_string();
    assert_eq!(
        verify_manifest(&registry, &foreign, &Ok(b"bytes".to_vec()), &vec![Err(String::new())], 0).unwrap_err(),
        "Publisher not found in registry"
    );
}
