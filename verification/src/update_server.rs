//! The update server: building and signing manifests, where packages and
//! manifests are stored, and what the API reports.

use vstd::prelude::*;
use crate::backend::{
    base64_encode, ed25519_signature, ed25519_public_of, dilithium3_signature, DILITHIUM3_SECRET_KEY_BYTES,
};
use crate::base64_text::{base64_of, lemma_base64_roundtrip};
use crate::core_types::{
    CryptoError, FileEntry, HashAlgorithm, ManifestSignature, SignatureAlgorithm, SignedManifest,
    UpdateManifest, key_format_text,
};
use crate::hashing::{Hasher, digest_of};
use crate::hex::hex_of;
use crate::hybrid::{HybridSignature, hybrid_signature_json, classical_message, pq_message};
use crate::key_management::{PublisherIdentity, PublisherKeyMaterial};
use crate::manifest_verifier::genuine_signature;
use crate::paths::{path_join, join_path, extension_of, extension, file_stem_of, file_stem, name_stem, name_stem_of};
use crate::text::{chars_of, concat_str, copy_string, str_eq, texts, push_text};
use crate::version::{decimal_of, push_decimal_u64, SemanticVersion, version_newer, version_parse, lemma_newer_asymmetric, lemma_newer_irreflexive, lemma_newer_total, lemma_newer_transitive};

verus! {

/// Thirty days in seconds: how long a new manifest stays valid.
pub const MANIFEST_LIFETIME_SECS: i64 = 2592000;

/// A file of a package: its path in the package, its contents and where
/// clients download it.
#[derive(Clone, Debug)]
pub struct PackageFile {
    pub path: String,
    pub contents: Vec<u8>,
    pub download_url: String,
}

/// Builds and signs manifests.
pub struct ManifestBuilder;

/// The manifest entry of a file: its size and BLAKE3 digest.
pub open spec fn entry_matches(e: FileEntry, f: PackageFile) -> bool {
    &&& e.path@ == f.path@
    &&& e.size == f.contents@.len()
    &&& e.hash_algorithm == HashAlgorithm::Blake3
    &&& e.hash@ == hex_of(digest_of(HashAlgorithm::Blake3, f.contents@))
    &&& e.download_url@ == f.download_url@
}

/// The text of an optional string slice as an optional text.
pub open spec fn opt_text(o: Option<&str>) -> Option<Seq<char>> {
    match o {
        Some(s) => Some(s@),
        None => None,
    }
}

/// The text of an optional string as an optional text.
pub open spec fn opt_string_text(o: Option<String>) -> Option<Seq<char>> {
    match o {
        Some(s) => Some(s@),
        None => None,
    }
}

fn opt_string(o: Option<&str>) -> (r: Option<String>)
    ensures
        opt_string_text(r) == opt_text(o),
{
    match o {
        Some(s) => Some(String::from_str(s)),
        None => None,
    }
}

/// The signature bytes `sign_manifest` makes with the publisher's keys,
/// or the text of the error it gives.
pub open spec fn manifest_signature_bytes(keys: PublisherKeyMaterial, bytes: Seq<u8>) -> Result<
    Seq<u8>,
    Seq<char>,
> {
    match keys.identity.algorithm {
        SignatureAlgorithm::Ed25519 => match keys.ed25519_keypair {
            None => Err(key_format_text("No Ed25519 key"@)),
            Some(kp) => match kp.secret() {
                None => Err(key_format_text("No secret key available"@)),
                Some(sk) => Ok(ed25519_signature(sk, bytes)),
            },
        },
        SignatureAlgorithm::MlDsa65 => match keys.ml_dsa_keypair {
            None => Err(key_format_text("No ML-DSA key"@)),
            Some(kp) => match kp.secret() {
                None => Err(key_format_text("No secret key available"@)),
                Some(sk) => if sk.len() == DILITHIUM3_SECRET_KEY_BYTES {
                    Ok(dilithium3_signature(bytes, sk))
                } else {
                    Err(key_format_text("Invalid secret key"@))
                },
            },
        },
        SignatureAlgorithm::HybridEd25519MlDsa65 => match keys.hybrid_keypair {
            None => Err(key_format_text("No hybrid key"@)),
            Some(kp) => match (kp.ed25519.secret(), kp.ml_dsa.secret()) {
                (Some(esk), Some(psk)) => if psk.len() == DILITHIUM3_SECRET_KEY_BYTES {
                    Ok(
                        hybrid_signature_json(
                            ed25519_signature(esk, classical_message(bytes)),
                            dilithium3_signature(pq_message(bytes), psk),
                            SignatureAlgorithm::HybridEd25519MlDsa65,
                        ),
                    )
                } else {
                    Err(key_format_text("Invalid secret key"@))
                },
                _ => Err(key_format_text("No secret key available"@)),
            },
        },
    }
}

/// `parsed` is the hybrid signature the publisher's hybrid key makes over
/// `bytes`.
pub open spec fn hybrid_parse_recovers(
    keys: PublisherKeyMaterial,
    bytes: Seq<u8>,
    parsed: Result<HybridSignature, String>,
) -> bool {
    &&& parsed matches Ok(hs)
    &&& keys.hybrid_keypair matches Some(kp)
    &&& kp.ed25519.secret() matches Some(esk)
    &&& kp.ml_dsa.secret() matches Some(psk)
    &&& hs.classical_signature@ == ed25519_signature(esk, classical_message(bytes))
    &&& hs.pq_signature@ == dilithium3_signature(pq_message(bytes), psk)
}

impl ManifestBuilder {
    /// The manifest entry of a file, with its BLAKE3 digest.
    pub fn file_entry(file: &PackageFile) -> (r: FileEntry)
        ensures
            entry_matches(r, *file),
    {
        FileEntry {
            path: copy_string(&file.path),
            size: file.contents.len() as u64,
            hash_algorithm: HashAlgorithm::Blake3,
            hash: Hasher::hash_bytes(&HashAlgorithm::Blake3, file.contents.as_slice()),
            download_url: copy_string(&file.download_url),
        }
    }

    /// The manifest of a package published at `now` (seconds since the
    /// Unix epoch); it expires thirty days later.
    pub fn build_manifest(
        package_name: &str,
        version: &str,
        previous_version: Option<&str>,
        files: &Vec<PackageFile>,
        publisher_id: &str,
        release_notes: Option<&str>,
        now: i64,
    ) -> (r: UpdateManifest)
        requires
            now <= i64::MAX - MANIFEST_LIFETIME_SECS,
        ensures
            r.package_name@ == package_name@,
            r.version@ == version@,
            opt_string_text(r.previous_version) == opt_text(previous_version),
            r.timestamp == now,
            r.expires == Some((now + MANIFEST_LIFETIME_SECS) as i64),
            r.files@.len() == files@.len(),
            forall|i: int| 0 <= i < files@.len() ==> entry_matches(#[trigger] r.files@[i], files@[i]),
            r.minimum_client_version is None,
            opt_string_text(r.release_notes) == opt_text(release_notes),
            r.publisher_id@ == publisher_id@,
    {
        let mut entries: Vec<FileEntry> = Vec::new();
        let mut i: usize = 0;
        while i < files.len()
            invariant
                i <= files@.len(),
                entries@.len() == i,
                forall|j: int| 0 <= j < i ==> entry_matches(#[trigger] entries@[j], files@[j]),
            decreases files.len() - i,
        {
            entries.push(Self::file_entry(&files[i]));
            i = i + 1;
        }
        UpdateManifest {
            package_name: String::from_str(package_name),
            version: String::from_str(version),
            previous_version: opt_string(previous_version),
            timestamp: now,
            expires: Some(now + MANIFEST_LIFETIME_SECS),
            files: entries,
            minimum_client_version: None,
            release_notes: opt_string(release_notes),
            publisher_id: String::from_str(publisher_id),
        }
    }

    /// Signs the serialized manifest with the key of the publisher's
    /// algorithm, at `now`; a hybrid signature is stored in its JSON form,
    /// the form the client's verifier reads. With consistent key material the signature is genuine:
    /// it verifies against the publisher's identity (for a hybrid one,
    /// once its bytes are parsed back to the signature that was made).
    pub fn sign_manifest(manifest_bytes: &[u8], keys: &PublisherKeyMaterial, now: i64) -> (r: Result<
        ManifestSignature,
        CryptoError,
    >)
        requires
            keys.ed25519_keypair matches Some(k) ==> k.wf(),
            keys.hybrid_keypair matches Some(k) ==> k.ed25519.wf(),
        ensures
            match manifest_signature_bytes(*keys, manifest_bytes@) {
                Ok(sb) => r matches Ok(s) && s.signature@ == base64_of(sb) && s.algorithm
                    == keys.identity.algorithm && s.publisher_id@ == keys.identity.id@ && s.key_id@
                    == keys.identity.key_id@ && s.signed_at == now,
                Err(t) => r matches Err(e) && e.text() == t,
            },
            r matches Ok(s) ==> keys.consistent() ==> forall|parsed: Result<HybridSignature, String>|
                (keys.identity.algorithm != SignatureAlgorithm::HybridEd25519MlDsa65
                    || hybrid_parse_recovers(*keys, manifest_bytes@, parsed)) ==> #[trigger] genuine_signature(
                    manifest_bytes@,
                    s,
                    keys.identity,
                    parsed,
                ),
    {
        let sig_bytes = match keys.identity.algorithm {
            SignatureAlgorithm::Ed25519 => {
                let kp = match &keys.ed25519_keypair {
                    Some(k) => k,
                    None => return Err(CryptoError::InvalidKeyFormat(String::from_str("No Ed25519 key"))),
                };
                match kp.sign(manifest_bytes) {
                    Ok(s) => s,
                    Err(e) => return Err(e),
                }
            },
            SignatureAlgorithm::MlDsa65 => {
                let kp = match &keys.ml_dsa_keypair {
                    Some(k) => k,
                    None => return Err(CryptoError::InvalidKeyFormat(String::from_str("No ML-DSA key"))),
                };
                match kp.sign(manifest_bytes) {
                    Ok(s) => s,
                    Err(e) => return Err(e),
                }
            },
            SignatureAlgorithm::HybridEd25519MlDsa65 => {
                let kp = match &keys.hybrid_keypair {
                    Some(k) => k,
                    None => return Err(CryptoError::InvalidKeyFormat(String::from_str("No hybrid key"))),
                };
                let hs = match kp.sign(manifest_bytes) {
                    Ok(s) => s,
                    Err(e) => return Err(e),
                };
                hs.to_json()
            },
        };
        let s = ManifestSignature {
            algorithm: keys.identity.algorithm,
            publisher_id: copy_string(&keys.identity.id),
            key_id: copy_string(&keys.identity.key_id),
            signature: base64_encode(sig_bytes.as_slice()),
            signed_at: now,
        };
        proof {
            if keys.consistent() {
                reveal(genuine_signature);
                lemma_base64_roundtrip(sig_bytes@);
                match keys.identity.algorithm {
                    SignatureAlgorithm::Ed25519 => {
                        let kp = keys.ed25519_keypair->0;
                        let sk = kp.secret()->0;
                        lemma_base64_roundtrip(kp.public_key@);
                        assert(sk.len() == 32 && kp.public_key@ == ed25519_public_of(sk)
                            && sig_bytes@ == ed25519_signature(sk, manifest_bytes@));
                    },
                    SignatureAlgorithm::MlDsa65 => {
                        let kp = keys.ml_dsa_keypair->0;
                        let sk = kp.secret()->0;
                        lemma_base64_roundtrip(kp.public_key@);
                        assert(sig_bytes@ == dilithium3_signature(manifest_bytes@, sk));
                    },
                    SignatureAlgorithm::HybridEd25519MlDsa65 => {
                        let kp = keys.hybrid_keypair->0;
                        let esk = kp.ed25519.secret()->0;
                        let psk = kp.ml_dsa.secret()->0;
                        lemma_base64_roundtrip(kp.ed25519.public_key@);
                        lemma_base64_roundtrip(kp.ml_dsa.public_key@);
                        assert(kp.ed25519.public_key@ == ed25519_public_of(esk));
                        assert(dilithium3_signature(pq_message(manifest_bytes@), psk)
                            == dilithium3_signature(pq_message(manifest_bytes@), psk));
                    },
                }
            }
        }
        Ok(s)
    }

    /// Signs a built manifest, given its JSON serialization (or the error
    /// serialization gave), and pairs it with its one signature.
    pub fn create_signed_manifest(
        manifest: UpdateManifest,
        manifest_bytes: &Result<Vec<u8>, String>,
        keys: &PublisherKeyMaterial,
        now: i64,
    ) -> (r: Result<SignedManifest, CryptoError>)
        requires
            keys.ed25519_keypair matches Some(k) ==> k.wf(),
            keys.hybrid_keypair matches Some(k) ==> k.ed25519.wf(),
        ensures
            match manifest_bytes {
                Err(t) => r matches Err(e) && e.text() == "Serialization error: "@ + t@,
                Ok(b) => match manifest_signature_bytes(*keys, b@) {
                    Ok(sb) => r matches Ok(sm) && sm.manifest == manifest && sm.signatures@.len() == 1
                        && sm.signatures@[0].signature@ == base64_of(sb) && sm.signatures@[0].algorithm
                        == keys.identity.algorithm && sm.signatures@[0].publisher_id@ == keys.identity.id@
                        && sm.signatures@[0].key_id@ == keys.identity.key_id@
                        && sm.signatures@[0].signed_at == now,
                    Err(t) => r matches Err(e) && e.text() == t,
                },
            },
            r matches Ok(sm) ==> keys.consistent() ==> (manifest_bytes matches Ok(b) && forall|
                parsed: Result<HybridSignature, String>,
            |
                (keys.identity.algorithm != SignatureAlgorithm::HybridEd25519MlDsa65
                    || hybrid_parse_recovers(*keys, b@, parsed)) ==> #[trigger] genuine_signature(
                    b@,
                    sm.signatures@[0],
                    keys.identity,
                    parsed,
                )),
    {
        let bytes = match manifest_bytes {
            Ok(b) => b,
            Err(t) => return Err(CryptoError::SerializationError(copy_string(t))),
        };
        let s = match Self::sign_manifest(bytes.as_slice(), keys, now) {
            Ok(s) => s,
            Err(e) => return Err(e),
        };
        let signatures = vec![s];
        Ok(SignedManifest { manifest, signatures })
    }
}

// ---------------------------------------------------------------------
// Storage layout
// ---------------------------------------------------------------------

/// Where the update server keeps package files and manifests; the
/// directories are created before a storage is made.
pub struct PackageStorage {
    packages_dir: String,
    manifests_dir: String,
}

/// `name` has the extension `json`.
pub open spec fn is_json_name(name: Seq<char>) -> bool {
    extension_of(name) == Some("json"@)
}

/// The version a manifest file is named after: `<version>.json`.
pub open spec fn manifest_version(name: Seq<char>) -> Option<SemanticVersion> {
    if is_json_name(name) {
        version_parse(name_stem(name))
    } else {
        None
    }
}

/// Name `i` is the latest manifest: the first name whose version no other
/// manifest's version exceeds.
pub open spec fn is_latest_manifest(names: Seq<String>, i: int) -> bool {
    &&& 0 <= i < names.len()
    &&& manifest_version(names[i]@) is Some
    &&& forall|j: int|
        0 <= j < names.len() && (#[trigger] manifest_version(names[j]@)) is Some ==> {
            &&& j < i ==> version_newer(manifest_version(names[i]@)->0, manifest_version(names[j]@)->0)
            &&& !version_newer(manifest_version(names[j]@)->0, manifest_version(names[i]@)->0)
        }
}

fn manifest_version_of(name: &str) -> (r: Option<SemanticVersion>)
    ensures
        r == manifest_version(name@),
{
    if !is_json_file(name) {
        return None;
    }
    let stem = name_stem_of(name);
    match SemanticVersion::parse(stem.as_str()) {
        Ok(v) => Some(v),
        Err(_) => None,
    }
}

fn is_json_file(name: &str) -> (r: bool)
    ensures
        r == is_json_name(name@),
{
    match extension(name) {
        Some(e) => str_eq(e.as_str(), "json"),
        None => false,
    }
}

impl PackageStorage {
    pub closed spec fn packages_dir_text(&self) -> Seq<char> {
        self.packages_dir@
    }

    pub closed spec fn manifests_dir_text(&self) -> Seq<char> {
        self.manifests_dir@
    }

    /// A storage over the two directories.
    pub fn new(packages_dir: &str, manifests_dir: &str) -> (r: Self)
        ensures
            r.packages_dir_text() == packages_dir@,
            r.manifests_dir_text() == manifests_dir@,
    {
        PackageStorage {
            packages_dir: String::from_str(packages_dir),
            manifests_dir: String::from_str(manifests_dir),
        }
    }

    /// The manifests directory.
    pub fn manifests_dir_path(&self) -> (r: String)
        ensures
            r@ == self.manifests_dir_text(),
    {
        copy_string(&self.manifests_dir)
    }

    /// The directory of one version of a package:
    /// `<packages>/<name>/<version>`.
    pub fn package_dir(&self, package_name: &str, version: &str) -> (r: String)
        ensures
            r@ == path_join(path_join(self.packages_dir_text(), package_name@), version@),
    {
        let d = join_path(self.packages_dir.as_str(), package_name);
        join_path(d.as_str(), version)
    }

    /// The package file: `<packages>/<name>/<version>/<name>-<version>.bin`.
    pub fn get_package_path(&self, package_name: &str, version: &str) -> (r: String)
        ensures
            r@ == path_join(
                path_join(path_join(self.packages_dir_text(), package_name@), version@),
                package_name@ + "-"@ + version@ + ".bin"@,
            ),
    {
        let d = self.package_dir(package_name, version);
        let f = publish_file_name(package_name, version);
        join_path(d.as_str(), f.as_str())
    }

    /// The directory of a package's manifests: `<manifests>/<name>`.
    pub fn manifest_dir(&self, package_name: &str) -> (r: String)
        ensures
            r@ == path_join(self.manifests_dir_text(), package_name@),
    {
        join_path(self.manifests_dir.as_str(), package_name)
    }

    /// The manifest of one version: `<manifests>/<name>/<version>.json`.
    pub fn manifest_path(&self, package_name: &str, version: &str) -> (r: String)
        ensures
            r@ == path_join(path_join(self.manifests_dir_text(), package_name@), version@ + ".json"@),
    {
        let d = self.manifest_dir(package_name);
        let f = concat_str(version, ".json");
        join_path(d.as_str(), f.as_str())
    }

    /// Of the file names in a package's manifest directory, the one whose
    /// manifest is the latest: among the names `<version>.json`, the one
    /// with the greatest version (the first given among equal versions).
    pub fn latest_manifest_file(file_names: &Vec<String>) -> (r: Option<String>)
        ensures
            r is None <==> forall|i: int|
                0 <= i < file_names@.len() ==> manifest_version(#[trigger] file_names@[i]@) is None,
            r matches Some(n) ==> exists|i: int|
                is_latest_manifest(file_names@, i) && #[trigger] file_names@[i]@ == n@,
    {
        let mut best: Option<(usize, SemanticVersion)> = None;
        let mut k: usize = 0;
        while k < file_names.len()
            invariant
                k <= file_names@.len(),
                match best {
                    None => forall|j: int| 0 <= j < k ==> manifest_version(#[trigger] file_names@[j]@) is None,
                    Some((b, v)) => b < k && manifest_version(file_names@[b as int]@) == Some(v)
                        && is_latest_manifest(file_names@.take(k as int), b as int),
                },
            decreases file_names.len() - k,
        {
            let ghost pre = file_names@.take(k as int);
            let ghost post = file_names@.take(k + 1);
            assert(forall|j: int| 0 <= j < k ==> post[j] == pre[j]);
            assert(forall|j: int| 0 <= j < k ==> pre[j] == file_names@[j]);
            assert(post[k as int] == file_names@[k as int]);
            match manifest_version_of(file_names[k].as_str()) {
                None => {
                    proof {
                        if let Some((b, v)) = best {
                            assert forall|j: int|
                                0 <= j < post.len() && (#[trigger] manifest_version(post[j]@)) is Some implies {
                                &&& j < b ==> version_newer(v, manifest_version(post[j]@)->0)
                                &&& !version_newer(manifest_version(post[j]@)->0, v)
                            } by {
                                assert(pre[b as int] == post[b as int]);
                            }
                        }
                    }
                },
                Some(nv) => {
                    match best {
                        None => {
                            proof {
                                lemma_newer_irreflexive(nv);
                            }
                            best = Some((k, nv));
                        },
                        Some((b, v)) => {
                            if nv.is_newer_than(&v) {
                                proof {
                                    assert forall|j: int|
                                        0 <= j < post.len() && (#[trigger] manifest_version(post[j]@)) is Some implies {
                                        &&& j < k ==> version_newer(nv, manifest_version(post[j]@)->0)
                                        &&& !version_newer(manifest_version(post[j]@)->0, nv)
                                    } by {
                                        lemma_newer_irreflexive(nv);
                                        if j < k {
                                            let w = manifest_version(post[j]@)->0;
                                            assert(pre[b as int] == post[b as int]);
                                            lemma_newer_total(w, v);
                                            if version_newer(v, w) {
                                                lemma_newer_transitive(nv, v, w);
                                            }
                                            lemma_newer_asymmetric(nv, w);
                                        }
                                    }
                                }
                                best = Some((k, nv));
                            } else {
                                proof {
                                    assert forall|j: int|
                                        0 <= j < post.len() && (#[trigger] manifest_version(post[j]@)) is Some implies {
                                        &&& j < b ==> version_newer(v, manifest_version(post[j]@)->0)
                                        &&& !version_newer(manifest_version(post[j]@)->0, v)
                                    } by {
                                        assert(pre[b as int] == post[b as int]);
                                    }
                                }
                            }
                        },
                    }
                },
            }
            k = k + 1;
        }
        proof {
            assert(file_names@.take(k as int) =~= file_names@);
        }
        match best {
            Some((b, _)) => Some(copy_string(&file_names[b])),
            None => None,
        }
    }

    /// The versions of a package: the stems of the file names in its
    /// manifest directory, in the order given (names without a stem are
    /// skipped).
    pub fn list_versions(file_names: &Vec<String>) -> (r: Vec<String>)
        ensures
            texts(r@) == stems(file_names@, file_names@.len() as int),
    {
        let mut r: Vec<String> = Vec::new();
        let mut i: usize = 0;
        while i < file_names.len()
            invariant
                i <= file_names@.len(),
                texts(r@) == stems(file_names@, i as int),
            decreases file_names.len() - i,
        {
            match file_stem(file_names[i].as_str()) {
                Some(t) => push_text(&mut r, t),
                None => {},
            }
            i = i + 1;
        }
        r
    }

    /// The packages with manifests: the names of the entries of the
    /// manifest directory that are directories (each entry given as its
    /// name and whether it is a directory), in the order given.
    pub fn list_packages(entries: &Vec<(String, bool)>) -> (r: Vec<String>)
        ensures
            texts(r@) == directory_names(entries@, entries@.len() as int),
    {
        let mut r: Vec<String> = Vec::new();
        let mut i: usize = 0;
        while i < entries.len()
            invariant
                i <= entries@.len(),
                texts(r@) == directory_names(entries@, i as int),
            decreases entries.len() - i,
        {
            if entries[i].1 {
                push_text(&mut r, copy_string(&entries[i].0));
            }
            i = i + 1;
        }
        r
    }
}

/// The names of the directories among the first `n` entries.
pub open spec fn directory_names(entries: Seq<(String, bool)>, n: int) -> Seq<Seq<char>>
    decreases n,
{
    if n <= 0 {
        Seq::<Seq<char>>::empty()
    } else if entries[n - 1].1 {
        directory_names(entries, n - 1).push(entries[n - 1].0@)
    } else {
        directory_names(entries, n - 1)
    }
}

/// The stems of the first `n` names, skipping names without one.
pub open spec fn stems(names: Seq<String>, n: int) -> Seq<Seq<char>>
    decreases n,
{
    if n <= 0 {
        Seq::<Seq<char>>::empty()
    } else {
        stems(names, n - 1) + match file_stem_of(names[n - 1]@) {
            Some(t) => seq![t],
            None => Seq::<Seq<char>>::empty(),
        }
    }
}

// ---------------------------------------------------------------------
// Publishing and the API
// ---------------------------------------------------------------------

/// What a publish request names.
#[derive(Clone, Debug)]
pub struct PublishRequest {
    pub package_name: String,
    pub version: String,
    pub previous_version: Option<String>,
    pub release_notes: Option<String>,
}

/// The server's publisher, as `/api/info` reports it.
#[derive(Clone, Debug)]
pub struct ServerInfo {
    pub publisher_id: String,
    pub publisher_name: String,
    pub algorithm: String,
    pub key_id: String,
    pub ed25519_public_key: Option<String>,
    pub ml_dsa_public_key: Option<String>,
}

/// A package with its versions, as `/api/packages` lists it.
#[derive(Clone, Debug)]
pub struct PackageListItem {
    pub name: String,
    pub latest_version: Option<String>,
    pub versions: Vec<String>,
}

/// The name a published package file gets: `<name>-<version>.bin`.
pub fn publish_file_name(package_name: &str, version: &str) -> (r: String)
    ensures
        r@ == package_name@ + "-"@ + version@ + ".bin"@,
{
    let mut r = concat_str(package_name, "-");
    r.append(version);
    r.append(".bin");
    r
}

/// Where clients download a published package:
/// `/api/packages/<name>/<version>/download`.
pub fn download_url(package_name: &str, version: &str) -> (r: String)
    ensures
        r@ == "/api/packages/"@ + package_name@ + "/"@ + version@ + "/download"@,
{
    let mut r = concat_str("/api/packages/", package_name);
    r.append("/");
    r.append(version);
    r.append("/download");
    r
}

fn opt_copy(o: &Option<String>) -> (r: Option<String>)
    ensures
        opt_string_text(r) == opt_string_text(*o),
{
    match o {
        Some(s) => Some(copy_string(s)),
        None => None,
    }
}

impl ServerInfo {
    /// What `/api/info` reports of the publisher identity.
    pub fn of_identity(identity: &PublisherIdentity) -> (r: ServerInfo)
        ensures
            r.publisher_id@ == identity.id@,
            r.publisher_name@ == identity.name@,
            r.algorithm@ == identity.algorithm.name_text(),
            r.key_id@ == identity.key_id@,
            opt_string_text(r.ed25519_public_key) == opt_string_text(identity.ed25519_public_key),
            opt_string_text(r.ml_dsa_public_key) == opt_string_text(identity.ml_dsa_public_key),
    {
        ServerInfo {
            publisher_id: copy_string(&identity.id),
            publisher_name: copy_string(&identity.name),
            algorithm: identity.algorithm.name(),
            key_id: copy_string(&identity.key_id),
            ed25519_public_key: opt_copy(&identity.ed25519_public_key),
            ml_dsa_public_key: opt_copy(&identity.ml_dsa_public_key),
        }
    }
}

// ---------------------------------------------------------------------
// Configuration
// ---------------------------------------------------------------------

/// The update server's configuration.
#[derive(Clone, Debug)]
pub struct ServerConfig {
    pub server: ServerSettings,
    pub publisher: PublisherSettings,
    pub storage: StorageSettings,
}

#[derive(Clone, Debug)]
pub struct ServerSettings {
    pub host: String,
    pub port: u16,
    pub tls_cert: Option<String>,
    pub tls_key: Option<String>,
}

#[derive(Clone, Debug)]
pub struct PublisherSettings {
    pub id: String,
    pub name: String,
    pub key_file: String,
    pub algorithm: String,
}

#[derive(Clone, Debug)]
pub struct StorageSettings {
    pub packages_dir: String,
    pub manifests_dir: String,
}

impl Default for ServerConfig {
    fn default() -> (r: Self)
        ensures
            r.server.host@ == "0.0.0.0"@,
            r.server.port == 8443,
            r.server.tls_cert is None,
            r.server.tls_key is None,
            r.publisher.id@ == "default-publisher"@,
            r.publisher.name@ == "Default Publisher"@,
            r.publisher.key_file@ == "keys/publisher.json"@,
            r.publisher.algorithm@ == "hybrid"@,
            r.storage.packages_dir@ == "data/packages"@,
            r.storage.manifests_dir@ == "data/manifests"@,
    {
        ServerConfig {
            server: ServerSettings {
                host: String::from_str("0.0.0.0"),
                port: 8443,
                tls_cert: None,
                tls_key: None,
            },
            publisher: PublisherSettings {
                id: String::from_str("default-publisher"),
                name: String::from_str("Default Publisher"),
                key_file: String::from_str("keys/publisher.json"),
                algorithm: String::from_str("hybrid"),
            },
            storage: StorageSettings {
                packages_dir: String::from_str("data/packages"),
                manifests_dir: String::from_str("data/manifests"),
            },
        }
    }
}

/// The signature algorithm a configuration names: `ed25519`, `ml-dsa` or
/// `dilithium`, and hybrid for anything else.
pub open spec fn algorithm_named(name: Seq<char>) -> SignatureAlgorithm {
    if name == "ed25519"@ {
        SignatureAlgorithm::Ed25519
    } else if name == "ml-dsa"@ || name == "dilithium"@ {
        SignatureAlgorithm::MlDsa65
    } else {
        SignatureAlgorithm::HybridEd25519MlDsa65
    }
}

impl ServerConfig {
    /// The signature algorithm the configuration names.
    pub fn signature_algorithm(&self) -> (r: SignatureAlgorithm)
        ensures
            r == algorithm_named(self.publisher.algorithm@),
    {
        let a = self.publisher.algorithm.as_str();
        if str_eq(a, "ed25519") {
            SignatureAlgorithm::Ed25519
        } else if str_eq(a, "ml-dsa") || str_eq(a, "dilithium") {
            SignatureAlgorithm::MlDsa65
        } else {
            SignatureAlgorithm::HybridEd25519MlDsa65
        }
    }

    /// The address the server listens on: `<host>:<port>`.
    pub fn bind_address(&self) -> (r: String)
        ensures
            r@ == self.server.host@ + ":"@ + decimal_of(self.server.port as nat),
    {
        let mut r = concat_str(self.server.host.as_str(), ":");
        push_decimal_u64(&mut r, self.server.port as u64);
        r
    }

    /// The server's URL, recorded in new publisher keys:
    /// `http://<host>:<port>`.
    pub fn server_url(&self) -> (r: String)
        ensures
            r@ == "http://"@ + self.server.host@ + ":"@ + decimal_of(self.server.port as nat),
    {
        let a = self.bind_address();
        concat_str("http://", a.as_str())
    }
}

} // verus!
