//! What a publisher sends: the signed metadata of a package, its
//! changelog, and the server addresses of the upload and the metadata.

use vstd::prelude::*;
use crate::backend::{sha3_256_digest, dilithium3_signature, ed25519_signature};
use crate::base64_text::base64_of;
use crate::crypto::{HybridKeyPair, HybridPublicKey, HybridSignature, compute_sha3_256_hex, signed_by};
use crate::hardening::{drop_ws, skip_ws, is_ws};
use crate::hex::hex_of;
use crate::models::{package_message, package_message_bytes, request_message, Platform, PublishPackageRequest};
use crate::paths::{file_name_of, file_name};
use crate::text::{blank, is_white_space, chars_of, string_of, concat_str, copy_string, texts, push_text};
use crate::version::{SemanticVersion, version_parse, version_parse_error, split_on, split_chars};

verus! {

/// `s` without its trailing whitespace.
pub open spec fn drop_ws_end(s: Seq<char>) -> Seq<char>
    decreases s.len(),
{
    if s.len() > 0 && is_white_space(s.last()) {
        drop_ws_end(s.drop_last())
    } else {
        s
    }
}

/// `s` without leading and trailing whitespace (`str::trim`).
pub open spec fn trim_text(s: Seq<char>) -> Seq<char> {
    drop_ws_end(drop_ws(s))
}

/// The changelog entries of a text: its lines, trimmed, blank ones left
/// out.
pub open spec fn changelog_of(lines: Seq<Seq<char>>) -> Seq<Seq<char>>
    decreases lines.len(),
{
    if lines.len() == 0 {
        Seq::<Seq<char>>::empty()
    } else {
        let r = changelog_of(lines.drop_last());
        if blank(lines.last()) {
            r
        } else {
            r.push(trim_text(lines.last()))
        }
    }
}

/// Trims a line.
pub fn trim(s: &Vec<char>) -> (r: Vec<char>)
    ensures
        r@ == trim_text(s@),
{
    assert(s@.skip(0) =~= s@);
    let start = skip_ws(s, 0);
    let ghost t = s@.skip(start as int);
    let mut end = s.len();
    assert(t.take((end - start) as int) =~= t);
    while end > start && is_ws(s[end - 1])
        invariant
            start <= end <= s@.len(),
            t == s@.skip(start as int),
            drop_ws_end(t) == drop_ws_end(t.take((end - start) as int)),
        decreases end,
    {
        assert(t.take((end - start) as int).drop_last() =~= t.take((end - 1 - start) as int));
        assert(t.take((end - start) as int).last() == s@[end - 1]);
        end = end - 1;
    }
    let mut r: Vec<char> = Vec::new();
    let mut i = start;
    while i < end
        invariant
            start <= i <= end <= s@.len(),
            r@ == s@.subrange(start as int, i as int),
        decreases end - i,
    {
        r.push(s[i]);
        i = i + 1;
        assert(r@ =~= s@.subrange(start as int, i as int));
    }
    assert(r@ =~= t.take((end - start) as int));
    r
}

fn is_blank_chars(s: &Vec<char>) -> (r: bool)
    ensures
        r == blank(s@),
{
    let mut i: usize = 0;
    while i < s.len()
        invariant
            i <= s@.len(),
            forall|j: int| 0 <= j < i ==> #[trigger] is_white_space(s@[j]),
        decreases s.len() - i,
    {
        if !is_ws(s[i]) {
            return false;
        }
        i = i + 1;
    }
    true
}

/// The changelog entries written in a text, one per non-blank line.
pub fn changelog_lines(text: &str) -> (r: Vec<String>)
    ensures
        texts(r@) == changelog_of(split_on(text@, '\n')),
{
    let cs = chars_of(text);
    let lines = split_chars(&cs, '\n');
    let mut r: Vec<String> = Vec::new();
    let mut i: usize = 0;
    while i < lines.len()
        invariant
            i <= lines@.len(),
            lines@.len() == split_on(text@, '\n').len(),
            forall|j: int| 0 <= j < lines@.len() ==> #[trigger] lines@[j]@ == split_on(text@, '\n')[j],
            texts(r@) == changelog_of(split_on(text@, '\n').take(i as int)),
        decreases lines.len() - i,
    {
        assert(split_on(text@, '\n').take(i + 1).drop_last() =~= split_on(text@, '\n').take(i as int));
        assert(lines@[i as int]@ == split_on(text@, '\n')[i as int]);
        if !is_blank_chars(&lines[i]) {
            let t = trim(&lines[i]);
            push_text(&mut r, string_of(&t));
        }
        i = i + 1;
    }
    assert(split_on(text@, '\n').take(lines@.len() as int) =~= split_on(text@, '\n'));
    r
}

/// The file name a package is published under: the name of the file it
/// was read from, or `<app_id>-<version>.<extension>`.
pub open spec fn published_name(path: Seq<char>, app_id: Seq<char>, version: Seq<char>, extension: Seq<char>) -> Seq<char> {
    match file_name_of(path) {
        Some(n) => n,
        None => app_id + "-"@ + version + "."@ + extension,
    }
}

/// The request a publication of `data` read from `file_path` makes for
/// version `v` (written `version_text`): its fields, and its hybrid
/// signature over the package statement.
pub open spec fn publication_request(
    keypair: HybridKeyPair,
    app_id: Seq<char>,
    v: SemanticVersion,
    version_text: Seq<char>,
    file_path: Seq<char>,
    fallback_extension: Seq<char>,
    data: Seq<u8>,
    description: Seq<char>,
    changelog: Seq<Seq<char>>,
    platform: Platform,
    req: PublishPackageRequest,
) -> bool {
    let h = sha3_256_digest(data);
    let msg = request_message(req);
    &&& msg == package_message(app_id, v, req.filename@, hex_of(h))
    &&& req.app_id@ == app_id
    &&& req.version == v
    &&& req.publisher_id@ == keypair.publisher_id@
    &&& req.sha3_256_hash@ == hex_of(h)
    &&& req.file_size == data.len()
    &&& req.filename@ == published_name(file_path, app_id, version_text, fallback_extension)
    &&& req.description@ == description
    &&& req.target_platforms@ == seq![platform]
    &&& req.signature.dilithium_signature@ == base64_of(
        dilithium3_signature(sha3_256_digest(msg), keypair.dilithium.secret_key@),
    )
    &&& req.signature.ed25519_signature@ == base64_of(
        ed25519_signature(keypair.ed25519.signing_key@, sha3_256_digest(msg)),
    )
    &&& req.signature.publisher_id@ == keypair.publisher_id@
    &&& req.min_upgrade_from is None
    &&& texts(req.changelog@) == changelog
    &&& keypair.keys_match() ==> signed_by(
        msg,
        req.signature.dilithium_signature@,
        req.signature.ed25519_signature@,
        base64_of(keypair.dilithium.public_key@),
        base64_of(keypair.ed25519.verifying_key@),
    )
}

/// The metadata request for a package read from `file_path`, targeting
/// `platform`; its hybrid signature, made with the publisher's key pair,
/// is over the package statement (application, version, file name and
/// digest of the data). Refused when the version is not `X.Y.Z`.
pub fn prepare_publication(
    keypair: &HybridKeyPair,
    app_id: &str,
    version: &str,
    file_path: &str,
    fallback_extension: &str,
    data: &[u8],
    description: &str,
    changelog: &Vec<String>,
    platform: Platform,
) -> (r: Result<PublishPackageRequest, String>)
    requires
        keypair.wf(),
    ensures
        match version_parse(version@) {
            None => r matches Err(e) && e@ == version_parse_error(version@),
            Some(v) => r matches Ok(req) && publication_request(
                *keypair,
                app_id@,
                v,
                version@,
                file_path@,
                fallback_extension@,
                data@,
                description@,
                texts(changelog@),
                platform,
                req,
            ),
        },
{
    let sem_version = match SemanticVersion::parse(version) {
        Ok(v) => v,
        Err(e) => return Err(e),
    };
    let hash = compute_sha3_256_hex(data);
    let filename = match file_name(file_path) {
        Some(n) => n,
        None => {
            let mut n = concat_str(app_id, "-");
            n.append(version);
            n.append(".");
            n.append(fallback_extension);
            n
        },
    };
    let message = package_message_bytes(app_id, &sem_version, filename.as_str(), hash.as_str());
    let signature = keypair.sign(message.as_slice()).unwrap();
    let mut target_platforms: Vec<Platform> = Vec::new();
    target_platforms.push(platform);
    let mut entries: Vec<String> = Vec::new();
    let mut i: usize = 0;
    while i < changelog.len()
        invariant
            i <= changelog@.len(),
            texts(entries@) == texts(changelog@).take(i as int),
        decreases changelog.len() - i,
    {
        push_text(&mut entries, copy_string(&changelog[i]));
        i = i + 1;
        assert(texts(entries@) =~= texts(changelog@).take(i as int));
    }
    assert(texts(changelog@).take(changelog@.len() as int) =~= texts(changelog@));
    assert(target_platforms@ =~= seq![platform]);
    Ok(
        PublishPackageRequest {
            app_id: String::from_str(app_id),
            version: sem_version,
            publisher_id: copy_string(&keypair.publisher_id),
            sha3_256_hash: hash,
            file_size: data.len() as u64,
            filename,
            description: String::from_str(description),
            target_platforms,
            signature,
            min_upgrade_from: None,
            changelog: entries,
        },
    )
}

/// The address a package file is uploaded to:
/// `<server>/api/packages/upload/<publisher>/<app_id>/<version>`.
pub fn upload_url(server: &str, publisher_id: &str, app_id: &str, version: &str) -> (r: String)
    ensures
        r@ == server@ + "/api/packages/upload/"@ + publisher_id@ + "/"@ + app_id@ + "/"@ + version@,
{
    let mut r = concat_str(server, "/api/packages/upload/");
    r.append(publisher_id);
    r.append("/");
    r.append(app_id);
    r.append("/");
    r.append(version);
    r
}

/// The address package metadata is published to:
/// `<server>/api/packages/metadata`.
pub fn metadata_url(server: &str) -> (r: String)
    ensures
        r@ == server@ + "/api/packages/metadata"@,
{
    concat_str(server, "/api/packages/metadata")
}

/// The `Authorization` header value of a session token.
pub fn bearer(token: &str) -> (r: String)
    ensures
        r@ == "Bearer "@ + token@,
{
    concat_str("Bearer ", token)
}

/// The names of a publisher's key files: `<id>.keys.json` for the secret
/// keys and `<id>.pub.json` for the public key.
pub fn key_file_names(publisher_id: &str) -> (r: (String, String))
    ensures
        r.0@ == publisher_id@ + ".keys.json"@,
        r.1@ == publisher_id@ + ".pub.json"@,
{
    (concat_str(publisher_id, ".keys.json"), concat_str(publisher_id, ".pub.json"))
}

/// What a detached signature file records of a signed file.
pub struct FileSignature {
    pub file_hash: String,
    pub file_size: usize,
    pub signature: HybridSignature,
    pub public_key: HybridPublicKey,
}

/// Signs a file's contents: its SHA3-256 digest, size, hybrid signature
/// and the signer's public key.
pub fn sign_file(keypair: &HybridKeyPair, data: &[u8]) -> (r: FileSignature)
    requires
        keypair.wf(),
    ensures
        r.file_hash@ == hex_of(sha3_256_digest(data@)),
        r.file_size == data@.len(),
        r.signature.dilithium_signature@ == base64_of(
            dilithium3_signature(sha3_256_digest(data@), keypair.dilithium.secret_key@),
        ),
        r.signature.ed25519_signature@ == base64_of(
            ed25519_signature(keypair.ed25519.signing_key@, sha3_256_digest(data@)),
        ),
        r.signature.publisher_id@ == keypair.publisher_id@,
        r.public_key.publisher_id@ == keypair.publisher_id@,
        r.public_key.dilithium_public_key@ == base64_of(keypair.dilithium.public_key@),
        r.public_key.ed25519_public_key@ == base64_of(keypair.ed25519.verifying_key@),
{
    let file_hash = compute_sha3_256_hex(data);
    let signature = keypair.sign(data).unwrap();
    FileSignature { file_hash, file_size: data.len(), signature, public_key: keypair.public_key() }
}

} // verus!
