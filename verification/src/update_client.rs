//! The desktop update client: self-integrity report, download addresses,
//! manifest verification against the server registry, and what it tells
//! the user about the supported algorithms.

use vstd::prelude::*;
use crate::core_types::{HashAlgorithm, SignedManifest};
use crate::hashing::{Hasher, digest_of};
use crate::hex::hex_of;
use crate::hybrid::HybridSignature;
use crate::manifest_verifier::{ManifestVerifier, VerificationResult};
use crate::server_registry::{ServerRegistry, first_index};
use crate::text::{concat_str, starts_with, trim_end_char, trim_end_matches_char, texts, push_text};

verus! {

// ---------------------------------------------------------------------
// Self-integrity report
// ---------------------------------------------------------------------

/// The state of a checked component.
#[derive(Clone, Copy, Debug, PartialEq, Eq, Structural)]
pub enum IntegrityStatus {
    /// Nothing wrong was found.
    Passed,
    Warning,
    Compromised,
    Unknown,
}

/// One checked component.
#[derive(Clone, Debug)]
pub struct IntegrityCheck {
    pub component: String,
    pub status: IntegrityStatus,
    pub details: String,
}

/// The checks of the client's own integrity; `timestamp` is seconds
/// since the Unix epoch.
#[derive(Clone, Debug)]
pub struct IntegrityReport {
    pub checks: Vec<IntegrityCheck>,
    pub overall_status: IntegrityStatus,
    pub timestamp: i64,
}

/// The client's executable: its path as `Debug` prints it, and its
/// contents or the error reading them gave.
#[derive(Debug)]
pub struct ExecutableInfo {
    pub path_text: String,
    pub contents: Result<Vec<u8>, String>,
}

/// The client's configuration directory: its path as `Debug` prints it,
/// whether it is present, and its Unix mode bits when they could be read.
#[derive(Clone, Debug)]
pub struct ConfigDirInfo {
    pub path_text: String,
    pub present: bool,
    pub mode: Option<u32>,
}

/// The overall status of a list of statuses: compromised if any is,
/// otherwise a warning if any is one, otherwise passed.
pub open spec fn overall_of(s: Seq<IntegrityStatus>) -> IntegrityStatus {
    if exists|i: int| 0 <= i < s.len() && s[i] == IntegrityStatus::Compromised {
        IntegrityStatus::Compromised
    } else if exists|i: int| 0 <= i < s.len() && s[i] == IntegrityStatus::Warning {
        IntegrityStatus::Warning
    } else {
        IntegrityStatus::Passed
    }
}

pub open spec fn statuses(c: Seq<IntegrityCheck>) -> Seq<IntegrityStatus> {
    Seq::new(c.len(), |i: int| c[i].status)
}

/// The overall status of the checks.
pub fn overall_status(checks: &Vec<IntegrityCheck>) -> (r: IntegrityStatus)
    ensures
        r == overall_of(statuses(checks@)),
{
    let mut compromised = false;
    let mut warning = false;
    let mut i: usize = 0;
    while i < checks.len()
        invariant
            i <= checks@.len(),
            compromised == exists|j: int| 0 <= j < i && checks@[j].status == IntegrityStatus::Compromised,
            warning == exists|j: int| 0 <= j < i && checks@[j].status == IntegrityStatus::Warning,
        decreases checks.len() - i,
    {
        if checks[i].status == IntegrityStatus::Compromised {
            compromised = true;
        }
        if checks[i].status == IntegrityStatus::Warning {
            warning = true;
        }
        i = i + 1;
    }
    let ghost s = statuses(checks@);
    assert(compromised == exists|j: int| 0 <= j < s.len() && s[j] == IntegrityStatus::Compromised) by {
        if compromised {
            let j = choose|j: int| 0 <= j < i && checks@[j].status == IntegrityStatus::Compromised;
            assert(s[j] == IntegrityStatus::Compromised);
        }
    }
    assert(warning == exists|j: int| 0 <= j < s.len() && s[j] == IntegrityStatus::Warning) by {
        if warning {
            let j = choose|j: int| 0 <= j < i && checks@[j].status == IntegrityStatus::Warning;
            assert(s[j] == IntegrityStatus::Warning);
        }
    }
    if compromised {
        IntegrityStatus::Compromised
    } else if warning {
        IntegrityStatus::Warning
    } else {
        IntegrityStatus::Passed
    }
}

/// Others may not write to the directory: a missing directory passes (it
/// will be created), as does one whose mode could not be read.
pub fn check_directory_permissions(dir_exists: bool, mode: Option<u32>) -> (r: bool)
    ensures
        r == (!dir_exists || match mode {
            Some(m) => m & 2 == 0,
            None => true,
        }),
{
    if !dir_exists {
        return true;
    }
    match mode {
        Some(m) => (m & 0o002) == 0,
        None => true,
    }
}

pub type CheckRow = (Seq<char>, IntegrityStatus, Seq<char>);

/// The check of the executable, when its path is known.
pub open spec fn binary_checks(exe: Option<ExecutableInfo>) -> Seq<CheckRow> {
    match exe {
        Some(e) => seq![
            (
                "Client Binary"@,
                if e.contents is Ok {
                    IntegrityStatus::Passed
                } else {
                    IntegrityStatus::Warning
                },
                "Executable: "@ + e.path_text@ + ", Hash: "@ + match e.contents {
                    Ok(c) => hex_of(digest_of(HashAlgorithm::Blake3, c@)),
                    Err(_) => "FAILED"@,
                },
            ),
        ],
        None => Seq::empty(),
    }
}

/// The check of the configuration directory, when there is one.
pub open spec fn config_checks(config: Option<ConfigDirInfo>) -> Seq<CheckRow> {
    match config {
        Some(c) => seq![
            (
                "Config Directory"@,
                if !c.present || match c.mode {
                    Some(m) => m & 2 == 0,
                    None => true,
                } {
                    IntegrityStatus::Passed
                } else {
                    IntegrityStatus::Warning
                },
                "Config dir: "@ + c.path_text@,
            ),
        ],
        None => Seq::empty(),
    }
}

/// The check of debugger detection.
pub open spec fn debugger_check(debugger_detected: bool) -> CheckRow {
    (
        "Debugger Detection"@,
        if debugger_detected {
            IntegrityStatus::Warning
        } else {
            IntegrityStatus::Passed
        },
        if debugger_detected {
            "Debugger or instrumentation detected"@
        } else {
            "No debugger detected"@
        },
    )
}

/// The checks the report holds, as (component, status, details).
pub open spec fn self_checks(
    exe: Option<ExecutableInfo>,
    config: Option<ConfigDirInfo>,
    debugger_detected: bool,
) -> Seq<CheckRow> {
    binary_checks(exe) + config_checks(config) + seq![debugger_check(debugger_detected)]
}

pub open spec fn check_rows(c: Seq<IntegrityCheck>) -> Seq<(Seq<char>, IntegrityStatus, Seq<char>)> {
    Seq::new(c.len(), |i: int| (c[i].component@, c[i].status, c[i].details@))
}

fn push_check(v: &mut Vec<IntegrityCheck>, c: IntegrityCheck)
    ensures
        check_rows(final(v)@) == check_rows(old(v)@).push((c.component@, c.status, c.details@)),
{
    v.push(c);
    assert(check_rows(v@) =~= check_rows(old(v)@).push((c.component@, c.status, c.details@)));
}

/// Checks the client itself at `now`: its executable (when its path is
/// known), its configuration directory (when there is one) and whether a
/// debugger was detected.
pub struct AntiTamper;

impl AntiTamper {
    pub fn verify_self_integrity(
        exe: Option<ExecutableInfo>,
        config: Option<ConfigDirInfo>,
        debugger_detected: bool,
        now: i64,
    ) -> (r: IntegrityReport)
        ensures
            check_rows(r.checks@) == self_checks(exe, config, debugger_detected),
            r.overall_status == overall_of(statuses(r.checks@)),
            r.timestamp == now,
    {
        let mut checks: Vec<IntegrityCheck> = Vec::new();
        match &exe {
            Some(e) => {
                let (status, hash) = match &e.contents {
                    Ok(c) => (IntegrityStatus::Passed, Hasher::hash_bytes(&HashAlgorithm::Blake3, c.as_slice())),
                    Err(_) => (IntegrityStatus::Warning, String::from_str("FAILED")),
                };
                let mut details = concat_str("Executable: ", e.path_text.as_str());
                details.append(", Hash: ");
                details.append(hash.as_str());
                push_check(
                    &mut checks,
                    IntegrityCheck { component: String::from_str("Client Binary"), status, details },
                );
            },
            None => {},
        }
        assert(check_rows(checks@) =~= binary_checks(exe));
        match &config {
            Some(c) => {
                let ok = check_directory_permissions(c.present, c.mode);
                push_check(
                    &mut checks,
                    IntegrityCheck {
                        component: String::from_str("Config Directory"),
                        status: if ok {
                            IntegrityStatus::Passed
                        } else {
                            IntegrityStatus::Warning
                        },
                        details: concat_str("Config dir: ", c.path_text.as_str()),
                    },
                );
            },
            None => {},
        }
        assert(check_rows(checks@) =~= binary_checks(exe) + config_checks(config));
        push_check(
            &mut checks,
            IntegrityCheck {
                component: String::from_str("Debugger Detection"),
                status: if debugger_detected {
                    IntegrityStatus::Warning
                } else {
                    IntegrityStatus::Passed
                },
                details: if debugger_detected {
                    String::from_str("Debugger or instrumentation detected")
                } else {
                    String::from_str("No debugger detected")
                },
            },
        );
        assert(check_rows(checks@) =~= self_checks(exe, config, debugger_detected));
        let overall_status = overall_status(&checks);
        IntegrityReport { checks, overall_status, timestamp: now }
    }
}

// ---------------------------------------------------------------------
// Downloads
// ---------------------------------------------------------------------

/// The state of a download.
#[derive(Clone, Debug)]
pub enum DownloadStatus {
    Pending,
    Downloading,
    Verifying,
    Complete,
    Failed(String),
}

/// The address of a file to download: its `download_url` as it is when
/// it starts with `http`, otherwise appended to the server's URL without
/// its trailing slashes.
pub open spec fn download_address(server_url: Seq<char>, download_url: Seq<char>) -> Seq<char> {
    if download_url.len() >= 4 && download_url.take(4) == "http"@ {
        download_url
    } else {
        trim_end_char(server_url, '/') + download_url
    }
}

/// Resolves the address of a file to download.
pub fn resolve_download_url(server_url: &str, download_url: &str) -> (r: String)
    ensures
        r@ == download_address(server_url@, download_url@),
{
    proof {
        reveal_strlit("http");
    }
    if starts_with(download_url, "http") {
        String::from_str(download_url)
    } else {
        let base = trim_end_matches_char(server_url, '/');
        concat_str(base.as_str(), download_url)
    }
}

/// The address listing a server's packages: `<server>/api/packages`,
/// trailing slashes of the server's URL dropped.
pub fn packages_url(server_url: &str) -> (r: String)
    ensures
        r@ == trim_end_char(server_url@, '/') + "/api/packages"@,
{
    let base = trim_end_matches_char(server_url, '/');
    concat_str(base.as_str(), "/api/packages")
}

/// The address of a package's latest manifest:
/// `<server>/api/packages/<name>/latest`.
pub fn latest_manifest_url(server_url: &str, package_name: &str) -> (r: String)
    ensures
        r@ == trim_end_char(server_url@, '/') + "/api/packages/"@ + package_name@ + "/latest"@,
{
    let base = trim_end_matches_char(server_url, '/');
    let mut r = concat_str(base.as_str(), "/api/packages/");
    r.append(package_name);
    r.append("/latest");
    r
}

// ---------------------------------------------------------------------
// Registry-backed commands
// ---------------------------------------------------------------------

/// The URL to ask for a package's latest manifest, from the server the
/// registry holds for the publisher.
pub fn check_updates_url(registry: &ServerRegistry, publisher_id: &str, package_name: &str) -> (r: Result<
    String,
    String,
>)
    ensures
        if first_index(registry.servers@, publisher_id@) < registry.servers@.len() {
            r matches Ok(u) && u@ == trim_end_char(
                registry.servers@[first_index(registry.servers@, publisher_id@) as int].url@,
                '/',
            ) + "/api/packages/"@ + package_name@ + "/latest"@
        } else {
            r matches Err(e) && e@ == "Server not found"@
        },
{
    match registry.get_server(publisher_id) {
        Some(server) => Ok(latest_manifest_url(server.url.as_str(), package_name)),
        None => Err(String::from_str("Server not found")),
    }
}

/// Verifies a manifest against the identity of its publisher's server in
/// the registry, at `now`; `manifest_bytes` and `parsed_hybrid` are as
/// for `ManifestVerifier::verify`.
pub fn verify_manifest(
    registry: &ServerRegistry,
    manifest: &SignedManifest,
    manifest_bytes: &Result<Vec<u8>, String>,
    parsed_hybrid: &Vec<Result<HybridSignature, String>>,
    now: i64,
) -> (r: Result<VerificationResult, String>)
    requires
        parsed_hybrid@.len() == manifest.signatures@.len(),
    ensures
        first_index(registry.servers@, manifest.manifest.publisher_id@) < registry.servers@.len() <==> r is Ok,
        r matches Err(e) ==> e@ == "Publisher not found in registry"@,
{
    match registry.get_server(manifest.manifest.publisher_id.as_str()) {
        Some(server) => Ok(ManifestVerifier::verify(manifest, &server.publisher, manifest_bytes, parsed_hybrid, now)),
        None => Err(String::from_str("Publisher not found in registry")),
    }
}

// ---------------------------------------------------------------------
// Security information
// ---------------------------------------------------------------------

/// A supported signature algorithm, as shown to the user.
#[derive(Clone, Debug)]
pub struct AlgorithmInfo {
    pub name: String,
    pub algorithm_type: String,
    pub key_size: String,
    pub signature_size: String,
    pub security_level: String,
    pub quantum_safe: bool,
}

/// The algorithms, hashes and transport the client supports.
#[derive(Clone, Debug)]
pub struct SecurityInfo {
    pub supported_algorithms: Vec<AlgorithmInfo>,
    pub hash_algorithms: Vec<String>,
    pub tls_version: String,
}

pub open spec fn info_view(a: AlgorithmInfo) -> (Seq<char>, Seq<char>, Seq<char>, Seq<char>, Seq<char>, bool) {
    (a.name@, a.algorithm_type@, a.key_size@, a.signature_size@, a.security_level@, a.quantum_safe)
}

fn algorithm_info(
    name: &str,
    algorithm_type: &str,
    key_size: &str,
    signature_size: &str,
    security_level: &str,
    quantum_safe: bool,
) -> (r: AlgorithmInfo)
    ensures
        info_view(r) == (name@, algorithm_type@, key_size@, signature_size@, security_level@, quantum_safe),
{
    AlgorithmInfo {
        name: String::from_str(name),
        algorithm_type: String::from_str(algorithm_type),
        key_size: String::from_str(key_size),
        signature_size: String::from_str(signature_size),
        security_level: String::from_str(security_level),
        quantum_safe,
    }
}

/// What the client reports of its cryptography.
pub fn get_security_info() -> (r: SecurityInfo)
    ensures
        r.supported_algorithms@.len() == 3,
        info_view(r.supported_algorithms@[0]) == (
            "Ed25519"@,
            "Classical"@,
            "256-bit"@,
            "512-bit"@,
            "128-bit classical"@,
            false,
        ),
        info_view(r.supported_algorithms@[1]) == (
            "ML-DSA-65 (Dilithium3)"@,
            "Post-Quantum (Lattice)"@,
            "~1952 bytes (public)"@,
            "~3293 bytes"@,
            "NIST Level 3"@,
            true,
        ),
        info_view(r.supported_algorithms@[2]) == (
            "Hybrid Ed25519 + ML-DSA-65"@,
            "Hybrid (Classical + PQ)"@,
            "Combined"@,
            "Combined"@,
            "NIST Level 3 + 128-bit classical"@,
            true,
        ),
        texts(r.hash_algorithms@) == seq!["SHA3-256"@, "SHA3-512"@, "BLAKE3"@],
        r.tls_version@ == "TLS 1.3"@,
{
    let mut supported_algorithms: Vec<AlgorithmInfo> = Vec::new();
    supported_algorithms.push(
        algorithm_info("Ed25519", "Classical", "256-bit", "512-bit", "128-bit classical", false),
    );
    supported_algorithms.push(
        algorithm_info(
            "ML-DSA-65 (Dilithium3)",
            "Post-Quantum (Lattice)",
            "~1952 bytes (public)",
            "~3293 bytes",
            "NIST Level 3",
            true,
        ),
    );
    supported_algorithms.push(
        algorithm_info(
            "Hybrid Ed25519 + ML-DSA-65",
            "Hybrid (Classical + PQ)",
            "Combined",
            "Combined",
            "NIST Level 3 + 128-bit classical",
            true,
        ),
    );
    let mut hash_algorithms: Vec<String> = Vec::new();
    push_text(&mut hash_algorithms, String::from_str("SHA3-256"));
    push_text(&mut hash_algorithms, String::from_str("SHA3-512"));
    push_text(&mut hash_algorithms, String::from_str("BLAKE3"));
    assert(texts(hash_algorithms@) =~= seq!["SHA3-256"@, "SHA3-512"@, "BLAKE3"@]);
    SecurityInfo { supported_algorithms, hash_algorithms, tls_version: String::from_str("TLS 1.3") }
}

} // verus!
