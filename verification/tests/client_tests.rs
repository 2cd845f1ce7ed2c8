use secure_update::client_updater::{
    apps_url, check_request, check_url, check_within, install_file_name, install_paths, package_download_url,
};
use secure_update::crypto::{compute_sha3_256_hex, verify_hybrid_signature, HybridKeyPair};
use secure_update::hardening::{
    check_debugger, check_environment, detect_debugger, full_hardening_check, full_hardening_check_with_server,
    perform_self_integrity_check, perform_self_integrity_check_with_server, suspicious_variables, IntegrityReply,
};
use secure_update::models::{current_platform_key, package_message_bytes, Platform};
use secure_update::paths::{components, extension, file_name, file_stem, join_path};
use secure_update::publishing::{bearer, changelog_lines, key_file_names, metadata_url, prepare_publication, sign_file, upload_url};
use secure_update::update_client::{
    check_directory_permissions, get_security_info, latest_manifest_url, overall_status, packages_url,
    resolve_download_url, AntiTamper, ConfigDirInfo, ExecutableInfo, IntegrityCheck, IntegrityStatus,
};
use secure_update::version::SemanticVersion;

const STATUS_TRACED: &str = "Name:\tclient\nState:\tR (running)\nTracerPid:\t4242\nUid:\t1000\n";
const STATUS_CLEAN: &str = "Name:\tclient\nTracerPid:\t0\n";

#[test]
fn debugger_detection_reads_tracer_pid() {
    assert!(check_debugger(Some(STATUS_TRACED)));
    assert!(!check_debugger(Some(STATUS_CLEAN)));
    assert!(!check_debugger(None));
    assert!(!check_debugger(Some("TracerPid:\tabc\n")));
    assert!(check_debugger(Some("TracerPid:  -1\r\n")));
    assert!(!check_debugger(Some("TracerPid:\t00\n")));
    assert!(detect_debugger(Some(STATUS_TRACED)));
    assert!(!detect_debugger(Some(STATUS_CLEAN)));
    // the update client compares the text, not the number
    assert!(detect_debugger(Some("TracerPid:\t00\n")));
    assert!(!detect_debugger(Some("TracerPid:\n")));
}

#[test]
fn environment_warnings() {
    assert_eq!(suspicious_variables(), vec!["LD_PRELOAD", "DYLD_INSERT_LIBRARIES", "_JAVA_OPTIONS"]);
    assert_eq!(
        check_environment(&vec![true, false, true]),
        vec![
            "Suspicious environment variable set: LD_PRELOAD".to_string(),
            "Suspicious environment variable set: _JAVA_OPTIONS".to_string()
        ]
    );
    assert!(check_environment(&vec![false, false, false]).is_empty());
}

#[test]
fn self_integrity_against_server() {
    let exe = b"client binary".to_vec();
    let hash = compute_sha3_256_hex(&exe);
    let reply = |h: Option<String>| IntegrityReply::Body { available: true, platform_hash: h };
    assert!(perform_self_integrity_check_with_server(&Ok(exe.clone()), &reply(Some(hash.to_uppercase()))).is_ok());
    let err = perform_self_integrity_check_with_server(&Ok(exe.clone()), &reply(Some("00ff".to_string()))).unwrap_err();
    assert_eq!(
        err,
        "Binary integrity check failed: executable does not match server-side hash. This binary may have been tampered with."
    );
    assert!(perform_self_integrity_check_with_server(&Ok(exe.clone()), &reply(None)).is_ok());
    assert!(perform_self_integrity_check_with_server(&Ok(exe.clone()), &IntegrityReply::Unreachable).is_ok());
    assert!(perform_self_integrity_check_with_server(&Ok(exe.clone()), &IntegrityReply::HttpStatus(500)).is_ok());
    assert!(perform_self_integrity_check_with_server(
        &Ok(exe.clone()),
        &IntegrityReply::Body { available: false, platform_hash: Some("00".to_string()) }
    )
    .is_ok());
    assert_eq!(
        perform_self_integrity_check_with_server(&Err("no exe".to_string()), &IntegrityReply::InvalidJson).unwrap_err(),
        "no exe"
    );
    assert!(perform_self_integrity_check(&Ok(exe)).is_ok());
}

#[test]
fn hardening_reports() {
    let exe = b"bin".to_vec();
    let r = full_hardening_check_with_server(
        Some(STATUS_CLEAN),
        &vec![false, false, false],
        &Ok(exe.clone()),
        &IntegrityReply::Body { available: true, platform_hash: Some("ff".to_string()) },
    );
    assert!(!r.debugger_detected && !r.self_integrity_ok && !r.overall_safe);
    let r = full_hardening_check(Some(STATUS_TRACED), &vec![true, false, false], &Ok(exe));
    assert!(r.debugger_detected && r.self_integrity_ok && !r.overall_safe);
    assert_eq!(r.environment_warnings.len(), 1);
    let r = full_hardening_check(None, &vec![false, false, false], &Err("x".to_string()));
    assert!(!r.overall_safe);
}

#[test]
fn platform_keys() {
    assert_eq!(current_platform_key("linux", "x86_64"), "linux-x86_64");
    assert_eq!(current_platform_key("windows", "x86_64"), "windows-x86_64");
    assert_eq!(current_platform_key("macos", "aarch64"), "unknown");
    assert_eq!(Platform::current("linux", "aarch64"), Platform::LinuxAarch64);
    assert_eq!(Platform::current("freebsd", "x86_64").tag(), "cross-platform");
}

#[test]
fn self_integrity_report() {
    let r = AntiTamper::verify_self_integrity(
        Some(ExecutableInfo { path_text: "\"/bin/client\"".to_string(), contents: Ok(b"x".to_vec()) }),
        Some(ConfigDirInfo { path_text: "\"/home/u/.config/krypto-update\"".to_string(), present: true, mode: Some(0o755) }),
        false,
        5,
    );
    assert_eq!(r.checks.len(), 3);
    assert_eq!(r.overall_status, IntegrityStatus::Passed);
    assert!(r.checks[0].details.starts_with("Executable: \"/bin/client\", Hash: "));
    assert_eq!(r.checks[2].details, "No debugger detected");
    let r = AntiTamper::verify_self_integrity(
        Some(ExecutableInfo { path_text: "p".to_string(), contents: Err("denied".to_string()) }),
        Some(ConfigDirInfo { path_text: "c".to_string(), present: true, mode: Some(0o777) }),
        true,
        5,
    );
    assert_eq!(r.checks[0].details, "Executable: p, Hash: FAILED");
    assert_eq!(r.checks[1].status, IntegrityStatus::Warning);
    assert_eq!(r.overall_status, IntegrityStatus::Warning);
    assert!(check_directory_permissions(false, Some(0o777)));
    assert!(!check_directory_permissions(true, Some(0o002)));
    assert!(check_directory_permissions(true, None));
    let checks = vec![
        IntegrityCheck { component: "a".to_string(), status: IntegrityStatus::Warning, details: String::new() },
        IntegrityCheck { component: "b".to_string(), status: IntegrityStatus::Compromised, details: String::new() },
    ];
    assert_eq!(overall_status(&checks), IntegrityStatus::Compromised);
    assert_eq!(overall_status(&vec![]), IntegrityStatus::Passed);
}

#[test]
fn download_addresses() {
    assert_eq!(resolve_download_url("http://s//", "/api/x"), "http://s/api/x");
    assert_eq!(resolve_download_url("http://s", "https://cdn/x"), "https://cdn/x");
    assert_eq!(packages_url("http://s/"), "http://s/api/packages");
    assert_eq!(latest_manifest_url("http://s", "app"), "http://s/api/packages/app/latest");
    assert_eq!(apps_url("http://s/"), "http://s/api/apps");
    assert_eq!(check_url("http://s", "app"), "http://s/api/check/app");
    assert_eq!(package_download_url("http://s", "app", "1.0.0"), "http://s/api/download/app/1.0.0");
    let req = check_request("app", &SemanticVersion::new(1, 0, 0), Platform::LinuxX86_64);
    assert_eq!(req.app_id, "app");
}

#[test]
fn install_names_stay_inside_the_install_directory() {
    assert_eq!(install_file_name("../../etc/evil").unwrap(), "evil");
    assert_eq!(install_file_name("app.bin").unwrap(), "app.bin");
    assert_eq!(install_file_name("../").unwrap(), "package.bin");
    assert_eq!(install_file_name("").unwrap(), "package.bin");
    assert_eq!(
        install_file_name("a\\b").unwrap_err(),
        "Invalid filename: contains path separator: a\\b"
    );
    let (out, tmp) = install_paths("/opt/apps", "tool.tar.gz");
    assert_eq!(out, "/opt/apps/tool.tar.gz");
    assert_eq!(tmp, "/opt/apps/tool.tar.tmp");
    assert!(check_within("/opt/apps/tool.tmp", "/opt/apps").is_ok());
    assert_eq!(
        check_within("/opt/appsx/tool.tmp", "/opt/apps").unwrap_err(),
        "Path traversal detected: /opt/appsx/tool.tmp is outside install dir /opt/apps"
    );
}

#[test]
fn path_helpers_follow_std() {
    for p in ["a/b", "/a//b/./c/", "./x", ".", "..", "a/..", "", "/", "x.tar.gz", ".bashrc"] {
        let std_path = std::path::Path::new(p);
        let expected: Vec<String> = std_path
            .components()
            .map(|c| c.as_os_str().to_string_lossy().to_string())
            .collect();
        assert_eq!(components(p), expected, "components of {:?}", p);
        assert_eq!(file_name(p), std_path.file_name().map(|n| n.to_string_lossy().to_string()), "file name of {:?}", p);
    }
    for n in ["x.tar.gz", ".bashrc", "noext", "a.", "..", "dir/file.json", "dir/", "."] {
        let std_path = std::path::Path::new(n);
        assert_eq!(extension(n), std_path.extension().map(|e| e.to_string_lossy().to_string()));
        assert_eq!(file_stem(n), std_path.file_stem().map(|e| e.to_string_lossy().to_string()));
    }
    for (a, b) in [("base", "x"), ("base/", "x"), ("", "x"), ("base", "/abs")] {
        assert_eq!(join_path(a, b), std::path::Path::new(a).join(b).to_string_lossy().to_string());
    }
}

#[test]
fn changelog_from_text() {
    assert_eq!(
        changelog_lines("  Fixed crash \n\n\t\r\nFaster startup\r\n"),
        vec!["Fixed crash".to_string(), "Faster startup".to_string()]
    );
    assert!(changelog_lines("").is_empty());
}

#[test]
fn publication_is_signed_and_verifiable() {
    let kp = HybridKeyPair::generate("acme").unwrap();
    let data = b"release";
    let req = prepare_publication(
        &kp,
        "app",
        "1.2.3",
        "/build/app-1.2.3.bin",
        "pkg",
        data,
        "desc",
        &vec!["one".to_string()],
        Platform::LinuxX86_64,
    )
    .unwrap();
    assert_eq!(req.filename, "app-1.2.3.bin");
    assert_eq!(req.version, SemanticVersion::new(1, 2, 3));
    assert_eq!(req.file_size, 7);
    assert_eq!(req.target_platforms, vec![Platform::LinuxX86_64]);
    let statement = package_message_bytes("app", &req.version, "app-1.2.3.bin", &compute_sha3_256_hex(data));
    assert_eq!(statement, format!("app\n1.2.3\napp-1.2.3.bin\n{}", compute_sha3_256_hex(data)).into_bytes());
    let r = verify_hybrid_signature(&statement, &req.signature, &kp.public_key()).unwrap();
    assert!(r.overall_valid);
    assert!(!verify_hybrid_signature(data, &req.signature, &kp.public_key()).unwrap().overall_valid);

    let req = prepare_publication(&kp, "app", "1.2.3", "/build/", "pkg", data, "", &vec![], Platform::CrossPlatform).unwrap();
    assert_eq!(req.filename, "build");
    let req = prepare_publication(&kp, "app", "1.2.3", "..", "pkg", data, "", &vec![], Platform::CrossPlatform).unwrap();
    assert_eq!(req.filename, "app-1.2.3.pkg");
    let err = prepare_publication(&kp, "app", "1.2", "f", "pkg", data, "", &vec![], Platform::CrossPlatform).unwrap_err();
    assert_eq!(err, "Invalid version format: '1.2' (expected X.Y.Z)");
}

#[test]
fn publisher_addresses_and_files() {
    assert_eq!(upload_url("https://s", "p", "a", "1.0.0"), "https://s/api/packages/upload/p/a/1.0.0");
    assert_eq!(metadata_url("https://s"), "https://s/api/packages/metadata");
    assert_eq!(bearer("t"), "Bearer t");
    assert_eq!(key_file_names("acme"), ("acme.keys.json".to_string(), "acme.pub.json".to_string()));
    let kp = HybridKeyPair::generate("acme").unwrap();
    let s = sign_file(&kp, b"file");
    assert_eq!(s.file_size, 4);
    assert!(verify_hybrid_signature(b"file", &s.signature, &s.public_key).unwrap().overall_valid);
}

#[test]
fn security_info_lists_algorithms() {
    let info = get_security_info();
    assert_eq!(info.supported_algorithms.len(), 3);
    assert_eq!(info.supported_algorithms[1].name, "ML-DSA-65 (Dilithium3)");
    assert!(!info.supported_algorithms[0].quantum_safe);
    assert_eq!(info.hash_algorithms, vec!["SHA3-256", "SHA3-512", "BLAKE3"]);
    assert_eq!(info.tls_version, "TLS 1.3");
}

