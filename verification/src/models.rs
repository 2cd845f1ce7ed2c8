//! Data exchanged between the update server, publishers and clients.
//! Times are seconds since the Unix epoch.

use vstd::prelude::*;
use crate::crypto::{HybridPublicKey, HybridSignature};
use vstd::utf8::encode_utf8;
use crate::text::{concat_str, copy_string, push_text, str_eq, texts};
use crate::version::{SemanticVersion, version_text, lemma_version_text_roundtrip};

verus! {

/// A registered publisher.
#[derive(Clone, Debug)]
pub struct PublisherInfo {
    pub id: String,
    pub display_name: String,
    pub public_key: HybridPublicKey,
    pub registered_at: i64,
    pub active: bool,
}

/// Metadata of an update package.
#[derive(Clone, Debug)]
pub struct PackageMetadata {
    pub package_id: String,
    pub app_id: String,
    pub version: SemanticVersion,
    pub publisher_id: String,
    pub sha3_256_hash: String,
    pub file_size: u64,
    pub filename: String,
    pub description: String,
    pub target_platforms: Vec<Platform>,
    pub signature: HybridSignature,
    pub published_at: i64,
    pub min_upgrade_from: Option<SemanticVersion>,
    pub changelog: Vec<String>,
}

/// A target platform.
#[derive(Clone, Copy, Debug, PartialEq, Eq, Structural)]
pub enum Platform {
    LinuxX86_64,
    LinuxAarch64,
    WindowsX86_64,
    CrossPlatform,
}

/// The platform of an operating system and architecture (as named by
/// `std::env::consts::OS` and `ARCH`).
pub open spec fn platform_for(os: Seq<char>, arch: Seq<char>) -> Platform {
    if os == "linux"@ && arch == "x86_64"@ {
        Platform::LinuxX86_64
    } else if os == "linux"@ && arch == "aarch64"@ {
        Platform::LinuxAarch64
    } else if os == "windows"@ && arch == "x86_64"@ {
        Platform::WindowsX86_64
    } else {
        Platform::CrossPlatform
    }
}

impl Platform {
    /// The platform a binary runs on, from its operating system and
    /// architecture as `std::env::consts::OS` and `ARCH` name them.
    pub fn current(os: &str, arch: &str) -> (r: Platform)
        ensures
            r == platform_for(os@, arch@),
    {
        if str_eq(os, "linux") && str_eq(arch, "x86_64") {
            Platform::LinuxX86_64
        } else if str_eq(os, "linux") && str_eq(arch, "aarch64") {
            Platform::LinuxAarch64
        } else if str_eq(os, "windows") && str_eq(arch, "x86_64") {
            Platform::WindowsX86_64
        } else {
            Platform::CrossPlatform
        }
    }

    pub open spec fn tag_text(self) -> Seq<char> {
        match self {
            Platform::LinuxX86_64 => "linux-x86_64"@,
            Platform::LinuxAarch64 => "linux-aarch64"@,
            Platform::WindowsX86_64 => "windows-x86_64"@,
            Platform::CrossPlatform => "cross-platform"@,
        }
    }

    /// The platform's name on the wire.
    pub fn tag(&self) -> (r: String)
        ensures
            r@ == self.tag_text(),
    {
        match self {
            Platform::LinuxX86_64 => String::from_str("linux-x86_64"),
            Platform::LinuxAarch64 => String::from_str("linux-aarch64"),
            Platform::WindowsX86_64 => String::from_str("windows-x86_64"),
            Platform::CrossPlatform => String::from_str("cross-platform"),
        }
    }
}

/// The key under which the server lists the client binary hash of a
/// platform: its wire name, and `unknown` for other platforms.
pub open spec fn platform_key_text(p: Platform) -> Seq<char> {
    match p {
        Platform::CrossPlatform => "unknown"@,
        _ => p.tag_text(),
    }
}

/// On the three named targets the integrity-hash key is the platform's
/// wire name; on any other target it is `unknown`.
pub proof fn lemma_platform_key(os: Seq<char>, arch: Seq<char>)
    ensures
        platform_for(os, arch) != Platform::CrossPlatform ==> platform_key_text(platform_for(os, arch))
            == platform_for(os, arch).tag_text(),
        platform_for(os, arch) == Platform::CrossPlatform ==> platform_key_text(platform_for(os, arch))
            == "unknown"@,
        os == "linux"@ && arch == "x86_64"@ ==> platform_key_text(platform_for(os, arch)) == "linux-x86_64"@,
        os == "linux"@ && arch == "aarch64"@ ==> platform_key_text(platform_for(os, arch)) == "linux-aarch64"@,
        os == "windows"@ && arch == "x86_64"@ ==> platform_key_text(platform_for(os, arch)) == "windows-x86_64"@,
{
    reveal_strlit("linux");
    reveal_strlit("windows");
    reveal_strlit("x86_64");
    reveal_strlit("aarch64");
    assert("linux"@ != "windows"@ && "x86_64"@ != "aarch64"@) by {
        assert("linux"@[0] != "windows"@[0]);
        assert("x86_64"@[0] != "aarch64"@[0]);
    }
}

/// The integrity-hash key of an operating system and architecture.
pub fn current_platform_key(os: &str, arch: &str) -> (r: String)
    ensures
        r@ == platform_key_text(platform_for(os@, arch@)),
{
    let p = Platform::current(os, arch);
    match p {
        Platform::CrossPlatform => String::from_str("unknown"),
        _ => p.tag(),
    }
}

pub(crate) fn copy_texts(v: &Vec<String>) -> (r: Vec<String>)
    ensures
        texts(r@) == texts(v@),
{
    let mut r: Vec<String> = Vec::new();
    let mut i: usize = 0;
    while i < v.len()
        invariant
            i <= v@.len(),
            texts(r@) == texts(v@).take(i as int),
        decreases v.len() - i,
    {
        push_text(&mut r, copy_string(&v[i]));
        i = i + 1;
        assert(texts(r@) =~= texts(v@).take(i as int));
    }
    assert(texts(v@).take(v@.len() as int) =~= texts(v@));
    r
}

pub(crate) fn copy_platforms(v: &Vec<Platform>) -> (r: Vec<Platform>)
    ensures
        r@ == v@,
{
    let mut r: Vec<Platform> = Vec::new();
    let mut i: usize = 0;
    while i < v.len()
        invariant
            i <= v@.len(),
            r@ == v@.take(i as int),
        decreases v.len() - i,
    {
        r.push(v[i]);
        i = i + 1;
        assert(r@ =~= v@.take(i as int));
    }
    assert(v@.take(v@.len() as int) =~= v@);
    r
}

pub(crate) fn copy_signature(s: &HybridSignature) -> (r: HybridSignature)
    ensures
        r.dilithium_signature@ == s.dilithium_signature@,
        r.ed25519_signature@ == s.ed25519_signature@,
        r.publisher_id@ == s.publisher_id@,
        r.signed_at@ == s.signed_at@,
{
    HybridSignature {
        dilithium_signature: copy_string(&s.dilithium_signature),
        ed25519_signature: copy_string(&s.ed25519_signature),
        publisher_id: copy_string(&s.publisher_id),
        signed_at: copy_string(&s.signed_at),
    }
}

/// Two publisher records hold the same values.
pub open spec fn same_publisher(a: PublisherInfo, b: PublisherInfo) -> bool {
    &&& a.id@ == b.id@
    &&& a.display_name@ == b.display_name@
    &&& a.public_key.publisher_id@ == b.public_key.publisher_id@
    &&& a.public_key.dilithium_public_key@ == b.public_key.dilithium_public_key@
    &&& a.public_key.ed25519_public_key@ == b.public_key.ed25519_public_key@
    &&& a.registered_at == b.registered_at
    &&& a.active == b.active
}

/// Two package records hold the same values.
pub open spec fn same_package(a: PackageMetadata, b: PackageMetadata) -> bool {
    &&& a.package_id@ == b.package_id@
    &&& a.app_id@ == b.app_id@
    &&& a.version == b.version
    &&& a.publisher_id@ == b.publisher_id@
    &&& a.sha3_256_hash@ == b.sha3_256_hash@
    &&& a.file_size == b.file_size
    &&& a.filename@ == b.filename@
    &&& a.description@ == b.description@
    &&& a.target_platforms@ == b.target_platforms@
    &&& a.signature.dilithium_signature@ == b.signature.dilithium_signature@
    &&& a.signature.ed25519_signature@ == b.signature.ed25519_signature@
    &&& a.signature.publisher_id@ == b.signature.publisher_id@
    &&& a.signature.signed_at@ == b.signature.signed_at@
    &&& a.published_at == b.published_at
    &&& a.min_upgrade_from == b.min_upgrade_from
    &&& texts(a.changelog@) == texts(b.changelog@)
}

pub(crate) fn copy_public_key(k: &HybridPublicKey) -> (r: HybridPublicKey)
    ensures
        r.publisher_id@ == k.publisher_id@,
        r.dilithium_public_key@ == k.dilithium_public_key@,
        r.ed25519_public_key@ == k.ed25519_public_key@,
{
    HybridPublicKey {
        publisher_id: copy_string(&k.publisher_id),
        dilithium_public_key: copy_string(&k.dilithium_public_key),
        ed25519_public_key: copy_string(&k.ed25519_public_key),
    }
}

/// A copy of a publisher record.
pub fn copy_publisher(p: &PublisherInfo) -> (r: PublisherInfo)
    ensures
        same_publisher(r, *p),
{
    PublisherInfo {
        id: copy_string(&p.id),
        display_name: copy_string(&p.display_name),
        public_key: copy_public_key(&p.public_key),
        registered_at: p.registered_at,
        active: p.active,
    }
}

/// A copy of a package record.
pub fn copy_package(m: &PackageMetadata) -> (r: PackageMetadata)
    ensures
        same_package(r, *m),
{
    PackageMetadata {
        package_id: copy_string(&m.package_id),
        app_id: copy_string(&m.app_id),
        version: m.version,
        publisher_id: copy_string(&m.publisher_id),
        sha3_256_hash: copy_string(&m.sha3_256_hash),
        file_size: m.file_size,
        filename: copy_string(&m.filename),
        description: copy_string(&m.description),
        target_platforms: copy_platforms(&m.target_platforms),
        signature: copy_signature(&m.signature),
        published_at: m.published_at,
        min_upgrade_from: m.min_upgrade_from,
        changelog: copy_texts(&m.changelog),
    }
}

/// The text a package signature is made over: the application id, the
/// version, the file name and the hex SHA3-256 digest of the file, one per
/// line. Signing it binds this metadata to the file.
pub open spec fn package_statement(
    app_id: Seq<char>,
    version: SemanticVersion,
    filename: Seq<char>,
    digest_hex: Seq<char>,
) -> Seq<char> {
    app_id + "\n"@ + version_text(version) + "\n"@ + filename + "\n"@ + digest_hex
}

/// A package statement fixes the version it was made for: with the same
/// application, file name and digest, statements of two different versions
/// differ, so a signature over one does not carry over to the other.
pub proof fn lemma_statement_binds_version(
    app_id: Seq<char>,
    v1: SemanticVersion,
    v2: SemanticVersion,
    filename: Seq<char>,
    digest_hex: Seq<char>,
)
    requires
        v1 != v2,
    ensures
        package_statement(app_id, v1, filename, digest_hex) != package_statement(app_id, v2, filename, digest_hex),
{
    lemma_version_text_roundtrip(v1);
    lemma_version_text_roundtrip(v2);
    let t1 = version_text(v1);
    let t2 = version_text(v2);
    let rest = "\n"@ + filename + "\n"@ + digest_hex;
    let p = app_id + "\n"@;
    let s1 = package_statement(app_id, v1, filename, digest_hex);
    let s2 = package_statement(app_id, v2, filename, digest_hex);
    assert(s1 =~= p + t1 + rest);
    assert(s2 =~= p + t2 + rest);
    if s1 == s2 {
        assert(t1.len() == t2.len());
        assert(t1 =~= s1.subrange(p.len() as int, (p.len() + t1.len()) as int));
        assert(t2 =~= s2.subrange(p.len() as int, (p.len() + t2.len()) as int));
    }
}

/// The UTF-8 bytes of a package statement.
pub open spec fn package_message(
    app_id: Seq<char>,
    version: SemanticVersion,
    filename: Seq<char>,
    digest_hex: Seq<char>,
) -> Seq<u8> {
    encode_utf8(package_statement(app_id, version, filename, digest_hex))
}

/// The bytes a package's metadata claims were signed.
pub open spec fn metadata_message(m: PackageMetadata) -> Seq<u8> {
    package_message(m.app_id@, m.version, m.filename@, m.sha3_256_hash@)
}

/// The bytes a publication request claims were signed.
pub open spec fn request_message(req: PublishPackageRequest) -> Seq<u8> {
    package_message(req.app_id@, req.version, req.filename@, req.sha3_256_hash@)
}

/// The bytes of a package statement, ready to be signed or verified.
pub fn package_message_bytes(app_id: &str, version: &SemanticVersion, filename: &str, digest_hex: &str) -> (r: Vec<
    u8,
>)
    ensures
        r@ == package_message(app_id@, *version, filename@, digest_hex@),
{
    let mut t = concat_str(app_id, "\n");
    let v = version.to_string();
    t.append(v.as_str());
    t.append("\n");
    t.append(filename);
    t.append("\n");
    t.append(digest_hex);
    proof {
        reveal_strlit("\n");
    }
    assert(t@ == package_statement(app_id@, *version, filename@, digest_hex@));
    t.as_str().as_bytes_vec()
}

/// A request to check for an update.
#[derive(Clone, Debug)]
pub struct CheckUpdateRequest {
    pub app_id: String,
    pub current_version: SemanticVersion,
    pub platform: Platform,
}

/// The answer to an update check.
#[derive(Clone, Debug)]
pub struct CheckUpdateResponse {
    pub update_available: bool,
    pub latest_package: Option<PackageMetadata>,
    pub publisher_public_key: Option<HybridPublicKey>,
}

/// A request to register a publisher's keys.
#[derive(Clone, Debug)]
pub struct RegisterPublisherRequest {
    pub display_name: String,
    pub public_key: HybridPublicKey,
}

/// A request to publish package metadata.
#[derive(Clone, Debug)]
pub struct PublishPackageRequest {
    pub app_id: String,
    pub version: SemanticVersion,
    pub publisher_id: String,
    pub sha3_256_hash: String,
    pub file_size: u64,
    pub filename: String,
    pub description: String,
    pub target_platforms: Vec<Platform>,
    pub signature: HybridSignature,
    pub min_upgrade_from: Option<SemanticVersion>,
    pub changelog: Vec<String>,
}

/// An application the server offers.
#[derive(Clone, Debug)]
pub struct AppInfo {
    pub app_id: String,
    pub latest_version: Option<SemanticVersion>,
    pub latest_publisher: Option<String>,
    pub last_published_at: Option<i64>,
}

/// The list of applications.
#[derive(Clone, Debug)]
pub struct ListAppsResponse {
    pub apps: Vec<AppInfo>,
}

/// An application installed on the client.
#[derive(Clone, Debug)]
pub struct InstalledApp {
    pub server_url: String,
    pub app_id: String,
    pub installed_version: SemanticVersion,
    pub install_dir: String,
    pub installed_at: i64,
    pub last_verified_at: Option<i64>,
}

/// The client's local configuration.
#[derive(Clone, Debug)]
pub struct ClientConfig {
    /// Known servers.
    pub servers: Vec<String>,
    /// The selected server.
    pub selected_server: String,
    pub app_id: String,
    pub current_version: SemanticVersion,
    pub download_dir: String,
    pub install_dir: String,
    /// Pinned publisher keys, per server.
    pub pinned_publisher_keys_by_server: Vec<(String, Vec<HybridPublicKey>)>,
    pub installed_apps: Vec<InstalledApp>,
    pub check_interval_secs: u64,
    pub auto_download: bool,
}

impl Default for ClientConfig {
    fn default() -> (r: Self)
        ensures
            r.servers@.len() == 1,
            r.servers@[0]@ == "http://127.0.0.1:8443"@,
            r.selected_server@ == "http://127.0.0.1:8443"@,
            r.app_id@ == "example-app"@,
            r.current_version.major == 1 && r.current_version.minor == 0 && r.current_version.patch == 0,
            r.download_dir@ == "./downloads"@,
            r.install_dir@ == "./installed"@,
            r.pinned_publisher_keys_by_server@.len() == 0,
            r.installed_apps@.len() == 0,
            r.check_interval_secs == 3600,
            !r.auto_download,
    {
        let mut servers: Vec<String> = Vec::new();
        servers.push(String::from_str("http://127.0.0.1:8443"));
        ClientConfig {
            servers,
            selected_server: String::from_str("http://127.0.0.1:8443"),
            app_id: String::from_str("example-app"),
            current_version: SemanticVersion::new(1, 0, 0),
            download_dir: String::from_str("./downloads"),
            install_dir: String::from_str("./installed"),
            pinned_publisher_keys_by_server: Vec::new(),
            installed_apps: Vec::new(),
            check_interval_secs: 3600,
            auto_download: false,
        }
    }
}

} // verus!
