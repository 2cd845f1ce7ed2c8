//! The decisions of the package server's API: authentication, account
//! and key registration, login with rate limiting, uploads, publication
//! of signed metadata and update checks. The server performs the database
//! and file operations and hands their results to these functions.

use vstd::prelude::*;
use vstd::utf8::encode_utf8;
use crate::backend::{new_uuid_v4, path_exists, sha3_256_digest};
use crate::crypto::{
    CryptoFailure, HybridPublicKey, IntegrityResult, compute_sha3_256_hex, verify_sha3_256,
    verify_hybrid_signature, hybrid_outcome, details_text, signed_by,
};
use crate::hex::hex_of;
use crate::database::{lemma_package_index, lemma_release_index, release_index, after_save, has_app, is_latest, lemma_publisher_index, publisher_index, Database};
use crate::models::{metadata_message, package_message_bytes, request_message, same_package, same_publisher, CheckUpdateRequest, copy_platforms, copy_signature, copy_texts, CheckUpdateResponse, PackageMetadata, PublisherInfo, PublishPackageRequest, RegisterPublisherRequest};
use crate::paths::{path_join, join_path, path_components, path_starts_with};
use crate::client_updater::{contains_char, lemma_join_component};
use crate::rate_limit::{RateLimiter, recent};
use crate::server_auth::RegisterAccountRequest;
use crate::text::{str_eq, blank, is_blank, concat_str, copy_string, starts_with, substring, chars_of, texts};
use crate::version::{SemanticVersion, version_newer, version_parse, version_parse_error, version_text, lemma_version_text_roundtrip};

verus! {

/// The HTTP status of an answer.
#[derive(Clone, Copy, Debug, PartialEq, Eq, Structural)]
pub enum ApiStatus {
    Success,
    Created,
    BadRequest,
    Unauthorized,
    Forbidden,
    NotFound,
    TooManyRequests,
    InternalServerError,
}

impl ApiStatus {
    pub open spec fn code_of(self) -> u16 {
        match self {
            ApiStatus::Success => 200,
            ApiStatus::Created => 201,
            ApiStatus::BadRequest => 400,
            ApiStatus::Unauthorized => 401,
            ApiStatus::Forbidden => 403,
            ApiStatus::NotFound => 404,
            ApiStatus::TooManyRequests => 429,
            ApiStatus::InternalServerError => 500,
        }
    }

    /// The numeric status code.
    pub fn code(&self) -> (r: u16)
        ensures
            r == self.code_of(),
    {
        match self {
            ApiStatus::Success => 200,
            ApiStatus::Created => 201,
            ApiStatus::BadRequest => 400,
            ApiStatus::Unauthorized => 401,
            ApiStatus::Forbidden => 403,
            ApiStatus::NotFound => 404,
            ApiStatus::TooManyRequests => 429,
            ApiStatus::InternalServerError => 500,
        }
    }
}

/// A refused request: the status, the error text and, for a failed
/// signature check, its details.
#[derive(Clone, Debug)]
pub struct ApiError {
    pub status: ApiStatus,
    pub error: String,
    pub details: Option<String>,
}

impl ApiError {
    /// The refusal has this status and error text and no details.
    pub open spec fn is(self, status: ApiStatus, error: Seq<char>) -> bool {
        self.status == status && self.error@ == error && self.details is None
    }

    /// The refusal has this status, error text and details.
    pub open spec fn is_detailed(self, status: ApiStatus, error: Seq<char>, details: Seq<char>) -> bool {
        &&& self.status == status
        &&& self.error@ == error
        &&& self.details matches Some(d) && d@ == details
    }
}

fn refuse(status: ApiStatus, error: String) -> (r: ApiError)
    ensures
        r.is(status, error@),
{
    ApiError { status, error, details: None }
}

fn refuse_str(status: ApiStatus, error: &str) -> (r: ApiError)
    ensures
        r.is(status, error@),
{
    ApiError { status, error: String::from_str(error), details: None }
}

// ---------------------------------------------------------------------
// Package files
// ---------------------------------------------------------------------

/// Where the server keeps uploaded package files; the directory is
/// created before a storage is made.
pub struct PackageStorage {
    base_path: String,
}

impl PackageStorage {
    pub closed spec fn base_text(&self) -> Seq<char> {
        self.base_path@
    }

    /// A storage under the directory.
    pub fn new(base_path: &str) -> (r: Self)
        ensures
            r.base_text() == base_path@,
    {
        PackageStorage { base_path: String::from_str(base_path) }
    }

    /// The directory of an application's packages: `<base>/<app_id>`.
    pub fn app_dir(&self, app_id: &str) -> (r: String)
        ensures
            r@ == path_join(self.base_text(), app_id@),
    {
        join_path(self.base_path.as_str(), app_id)
    }

    /// The file of a package: `<base>/<app_id>/<version>.pkg`.
    pub fn package_path(&self, app_id: &str, version: &str) -> (r: String)
        ensures
            r@ == path_join(path_join(self.base_text(), app_id@), version@ + ".pkg"@),
    {
        let d = self.app_dir(app_id);
        let f = concat_str(version, ".pkg");
        join_path(d.as_str(), f.as_str())
    }

    /// Whether the package file exists (the file system decides).
    pub fn package_exists(&self, app_id: &str, version: &str) -> (r: bool) {
        let p = self.package_path(app_id, version);
        path_exists(p.as_str())
    }
}

/// A single path component the server may place a file under: not
/// empty, not `.` or `..`, and without a path separator.
pub open spec fn safe_component(s: Seq<char>) -> bool {
    &&& s.len() > 0
    &&& !s.contains('/')
    &&& !s.contains('\\')
    &&& s != "."@
    &&& s != ".."@
}

/// Whether a text is a safe path component.
pub fn is_safe_component(s: &str) -> (r: bool)
    ensures
        r == safe_component(s@),
{
    let cs = chars_of(s);
    cs.len() > 0 && !contains_char(&cs, '/') && !contains_char(&cs, '\\') && !str_eq(s, ".") && !str_eq(s, "..")
}

/// A package file of safe components stays inside the storage directory:
/// its path's components are the directory's, then the application id,
/// then `<version>.pkg`.
pub proof fn lemma_package_path_inside(base: Seq<char>, app_id: Seq<char>, version: Seq<char>)
    requires
        safe_component(app_id),
        safe_component(version),
    ensures
        path_components(path_join(path_join(base, app_id), version + ".pkg"@)) == path_components(base).push(
            app_id,
        ).push(version + ".pkg"@),
        path_starts_with(path_join(path_join(base, app_id), version + ".pkg"@), base),
{
    reveal_strlit(".pkg");
    reveal_strlit(".");
    reveal_strlit("..");
    let f = version + ".pkg"@;
    assert forall|i: int| 0 <= i < app_id.len() implies app_id[i] != '/' by {
        if app_id[i] == '/' {
            assert(app_id.contains('/'));
        }
    }
    assert forall|i: int| 0 <= i < f.len() implies f[i] != '/' by {
        if i < version.len() {
            assert(f[i] == version[i]);
            if version[i] == '/' {
                assert(version.contains('/'));
            }
        }
    }
    assert(f != "."@ && f != ".."@) by {
        assert(f.len() >= 4);
    }
    lemma_join_component(base, app_id);
    lemma_join_component(path_join(base, app_id), f);
    let a = path_components(path_join(path_join(base, app_id), f));
    let b = path_components(base);
    assert(a.take(b.len() as int) =~= b);
}

// ---------------------------------------------------------------------
// Publishers
// ---------------------------------------------------------------------

/// A publisher may publish for an application while its account is
/// active.
pub fn verify_publisher_authorization(publisher: &PublisherInfo, app_id: &str) -> (r: Result<bool, String>)
    ensures
        r == Ok::<bool, String>(publisher.active),
{
    Ok(publisher.active)
}

/// What checking package data against its metadata and the publisher's
/// key gives: first the SHA3-256 digest, then the hybrid signature over the
/// package statement of the metadata.
pub open spec fn metadata_outcome(data: Seq<u8>, m: PackageMetadata, key: HybridPublicKey) -> Result<
    (bool, bool, bool),
    CryptoFailure,
> {
    if hex_of(sha3_256_digest(data)) != m.sha3_256_hash@ {
        Ok((false, false, false))
    } else {
        match hybrid_outcome(
            metadata_message(m),
            m.signature.dilithium_signature@,
            m.signature.ed25519_signature@,
            key.dilithium_public_key@,
            key.ed25519_public_key@,
        ) {
            Ok((d, e)) => Ok((true, d, e)),
            Err(f) => Err(f),
        }
    }
}

/// Checks package data against its metadata and the publisher's key: a
/// digest mismatch is reported without checking signatures; otherwise
/// the hybrid signature over the package statement (application,
/// version, file name and digest) must verify.
pub fn verify_package_metadata(
    metadata: &PackageMetadata,
    publisher: &PublisherInfo,
    package_data: &[u8],
) -> (r: Result<IntegrityResult, CryptoFailure>)
    ensures
        match metadata_outcome(package_data@, *metadata, publisher.public_key) {
            Ok((h, d, e)) => r matches Ok(ir) && ir.hash_valid == h && ir.dilithium_valid == d
                && ir.ed25519_valid == e && ir.overall_valid == (h && d && e) && ir.details@ == if h {
                details_text(d, e)
            } else {
                "Hash mismatch: expected "@ + metadata.sha3_256_hash@ + ", got "@ + hex_of(
                    sha3_256_digest(package_data@),
                )
            },
            Err(f) => r == Err::<IntegrityResult, CryptoFailure>(f),
        },
        hex_of(sha3_256_digest(package_data@)) == metadata.sha3_256_hash@ && signed_by(
            metadata_message(*metadata),
            metadata.signature.dilithium_signature@,
            metadata.signature.ed25519_signature@,
            publisher.public_key.dilithium_public_key@,
            publisher.public_key.ed25519_public_key@,
        ) ==> (r matches Ok(ir) && ir.overall_valid),
{
    let computed = compute_sha3_256_hex(package_data);
    let hash_valid = verify_sha3_256(package_data, metadata.sha3_256_hash.as_str());
    if !hash_valid {
        let mut details = concat_str("Hash mismatch: expected ", metadata.sha3_256_hash.as_str());
        details.append(", got ");
        details.append(computed.as_str());
        return Ok(
            IntegrityResult {
                hash_valid: false,
                dilithium_valid: false,
                ed25519_valid: false,
                overall_valid: false,
                details,
            },
        );
    }
    let message = package_message_bytes(
        metadata.app_id.as_str(),
        &metadata.version,
        metadata.filename.as_str(),
        metadata.sha3_256_hash.as_str(),
    );
    let mut result = match verify_hybrid_signature(message.as_slice(), &metadata.signature, &publisher.public_key) {
        Ok(ir) => ir,
        Err(f) => return Err(f),
    };
    result.hash_valid = hash_valid;
    result.overall_valid = result.overall_valid && hash_valid;
    Ok(result)
}

// ---------------------------------------------------------------------
// Authentication
// ---------------------------------------------------------------------

/// The token of an `Authorization` header value: what follows `Bearer `.
pub fn extract_token(authorization: Option<&str>) -> (r: Option<String>)
    ensures
        match authorization {
            None => r is None,
            Some(h) => if h@.len() >= 7 && h@.take(7) == "Bearer "@ {
                r matches Some(t) && t@ == h@.skip(7)
            } else {
                r is None
            },
        },
{
    match authorization {
        None => None,
        Some(h) => {
            proof {
                reveal_strlit("Bearer ");
            }
            if starts_with(h, "Bearer ") {
                let cs = chars_of(h);
                let t = substring(h, 7, cs.len());
                assert(h@.subrange(7, h@.len() as int) =~= h@.skip(7));
                Some(t)
            } else {
                None
            }
        },
    }
}

/// The refusal of a request without a bearer token.
pub fn missing_token() -> (r: ApiError)
    ensures
        r.is(ApiStatus::Unauthorized, "Missing Authorization header"@),
{
    refuse_str(ApiStatus::Unauthorized, "Missing Authorization header")
}

/// What a session lookup gives a request: the (username, publisher id)
/// of a live session, or its refusal.
pub fn session_outcome(lookup: Result<Option<(String, String)>, String>) -> (r: Result<
    (String, String),
    ApiError,
>)
    ensures
        match lookup {
            Ok(Some((u, p))) => r matches Ok((ru, rp)) && ru@ == u@ && rp@ == p@,
            Ok(None) => r matches Err(e) && e.is(ApiStatus::Unauthorized, "Invalid or expired session"@),
            Err(t) => r matches Err(e) && e.is(ApiStatus::InternalServerError, t@),
        },
{
    match lookup {
        Ok(Some((u, p))) => Ok((u, p)),
        Ok(None) => Err(refuse_str(ApiStatus::Unauthorized, "Invalid or expired session")),
        Err(t) => Err(refuse(ApiStatus::InternalServerError, t)),
    }
}

// ---------------------------------------------------------------------
// Accounts and login
// ---------------------------------------------------------------------

/// Checks a request to create an account: username and publisher id
/// must not be blank, and the password must be at least 8 bytes long.
pub fn validate_account_request(req: &RegisterAccountRequest) -> (r: Result<(), ApiError>)
    ensures
        if blank(req.username@) || blank(req.publisher_id@) {
            r matches Err(e) && e.is(ApiStatus::BadRequest, "username and publisher_id required"@)
        } else if encode_utf8(req.password@).len() < 8 {
            r matches Err(e) && e.is(ApiStatus::BadRequest, "Password must be at least 8 characters"@)
        } else {
            r is Ok
        },
{
    if is_blank(req.username.as_str()) || is_blank(req.publisher_id.as_str()) {
        return Err(refuse_str(ApiStatus::BadRequest, "username and publisher_id required"));
    }
    let bytes = req.password.as_str().as_bytes_vec();
    if bytes.len() < 8 {
        return Err(refuse_str(ApiStatus::BadRequest, "Password must be at least 8 characters"));
    }
    Ok(())
}

/// What creating the account gave: refused with the database's error
/// text, or created.
pub fn account_creation_outcome(created: Result<(), String>) -> (r: Result<ApiStatus, ApiError>)
    ensures
        match created {
            Ok(()) => r == Ok::<ApiStatus, ApiError>(ApiStatus::Created),
            Err(t) => r matches Err(e) && e.is(ApiStatus::BadRequest, t@),
        },
{
    match created {
        Ok(()) => Ok(ApiStatus::Created),
        Err(t) => Err(refuse(ApiStatus::BadRequest, t)),
    }
}

/// The key under which login attempts are counted: `<ip>:<username>`.
pub fn login_rate_key(client_ip: &str, username: &str) -> (r: String)
    ensures
        r@ == client_ip@ + ":"@ + username@,
{
    let mut r = concat_str(client_ip, ":");
    r.append(username);
    r
}

/// The first step of a login at `now_ms` (milliseconds): the attempt is
/// counted under `<ip>:<username>`, and refused once five attempts fall
/// within the window. Gives the rate key when the attempt may go on.
pub fn begin_login(limiter: &mut RateLimiter, client_ip: &str, username: &str, now_ms: u64) -> (r: Result<
    String,
    ApiError,
>)
    requires
        old(limiter).wf(),
    ensures
        final(limiter).wf(),
        final(limiter).max() == old(limiter).max(),
        final(limiter).window() == old(limiter).window(),
        ({
            let key = client_ip@ + ":"@ + username@;
            let allowed = recent(old(limiter).log(key), now_ms, old(limiter).window()).len() < old(
                limiter,
            ).max();
            &&& final(limiter).log(key) == if allowed {
                recent(old(limiter).log(key), now_ms, old(limiter).window()).push(now_ms)
            } else {
                recent(old(limiter).log(key), now_ms, old(limiter).window())
            }
            &&& forall|k: Seq<char>| k != key ==> final(limiter).log(k) == old(limiter).log(k)
            &&& if allowed {
                r matches Ok(t) && t@ == key
            } else {
                r matches Err(e) && e.is(
                    ApiStatus::TooManyRequests,
                    "Too many login attempts. Wait 60 seconds."@,
                )
            }
        }),
{
    let key = login_rate_key(client_ip, username);
    if !limiter.check_and_record(key.as_str(), now_ms) {
        return Err(refuse_str(ApiStatus::TooManyRequests, "Too many login attempts. Wait 60 seconds."));
    }
    Ok(key)
}

/// The second step of a login, with what checking the credentials gave:
/// on success the attempts under the rate key are forgotten and the
/// (username, publisher id) returned.
pub fn finish_login(
    limiter: &mut RateLimiter,
    rate_key: &str,
    credentials: Result<Option<(String, String)>, String>,
) -> (r: Result<(String, String), ApiError>)
    requires
        old(limiter).wf(),
    ensures
        final(limiter).wf(),
        final(limiter).max() == old(limiter).max(),
        final(limiter).window() == old(limiter).window(),
        match credentials {
            Ok(Some((u, p))) => {
                &&& r matches Ok((ru, rp)) && ru@ == u@ && rp@ == p@
                &&& final(limiter).log(rate_key@) == Seq::<u64>::empty()
                &&& forall|k: Seq<char>| k != rate_key@ ==> final(limiter).log(k) == old(limiter).log(k)
            },
            Ok(None) => {
                &&& r matches Err(e) && e.is(ApiStatus::Unauthorized, "Invalid username or password"@)
                &&& forall|k: Seq<char>| final(limiter).log(k) == old(limiter).log(k)
            },
            Err(t) => {
                &&& r matches Err(e) && e.is(ApiStatus::InternalServerError, t@)
                &&& forall|k: Seq<char>| final(limiter).log(k) == old(limiter).log(k)
            },
        },
{
    match credentials {
        Ok(Some((u, p))) => {
            limiter.reset(rate_key);
            Ok((u, p))
        },
        Ok(None) => Err(refuse_str(ApiStatus::Unauthorized, "Invalid username or password")),
        Err(t) => Err(refuse(ApiStatus::InternalServerError, t)),
    }
}

/// How long a session lasts: 24 hours, in seconds.
pub const SESSION_LIFETIME_SECS: i64 = 86400;

/// When a session opened at `now` (seconds) expires.
pub fn session_expiry(now: i64) -> (r: i64)
    requires
        now <= i64::MAX - SESSION_LIFETIME_SECS,
    ensures
        r == now + SESSION_LIFETIME_SECS,
{
    now + SESSION_LIFETIME_SECS
}

/// The refusal when the session could not be stored.
pub fn session_creation_failed(error: &str) -> (r: ApiError)
    ensures
        r.is(ApiStatus::InternalServerError, "Session creation failed: "@ + error@),
{
    refuse(ApiStatus::InternalServerError, concat_str("Session creation failed: ", error))
}

// ---------------------------------------------------------------------
// Update checks and downloads
// ---------------------------------------------------------------------

/// The answer to an update check, from the latest package of the
/// application (if any) and its publisher's key (if found): an update is
/// available when the latest version is newer than the client's; only
/// then are the package and the key sent.
pub fn check_update_response(
    latest: Option<PackageMetadata>,
    current_version: &SemanticVersion,
    publisher_key: Option<HybridPublicKey>,
) -> (r: CheckUpdateResponse)
    ensures
        match latest {
            None => !r.update_available && r.latest_package is None && r.publisher_public_key is None,
            Some(m) => {
                &&& r.update_available == version_newer(m.version, *current_version)
                &&& r.latest_package == if r.update_available {
                    Some(m)
                } else {
                    None
                }
                &&& r.publisher_public_key == if r.update_available {
                    publisher_key
                } else {
                    None
                }
            },
        },
{
    match latest {
        None => CheckUpdateResponse { update_available: false, latest_package: None, publisher_public_key: None },
        Some(m) => {
            let update_available = m.version.is_newer_than(current_version);
            if update_available {
                CheckUpdateResponse {
                    update_available,
                    latest_package: Some(m),
                    publisher_public_key: publisher_key,
                }
            } else {
                CheckUpdateResponse { update_available, latest_package: None, publisher_public_key: None }
            }
        },
    }
}

/// The server's answer to an update check of an application: the latest
/// package of the application is offered, with the public key of its
/// publisher when registered, exactly when it is newer than the client's
/// current version.
pub fn check_update(db: &Database, app_id: &str, req: &CheckUpdateRequest) -> (r: CheckUpdateResponse)
    ensures
        !has_app(db.package_rows(), app_id@) ==> !r.update_available && r.latest_package is None
            && r.publisher_public_key is None,
        has_app(db.package_rows(), app_id@) ==> exists|i: int|
            #![trigger db.package_rows()[i]]
            {
                let latest = db.package_rows()[i];
                let pubs = db.publisher_rows();
                let k = publisher_index(pubs, latest.publisher_id@);
                &&& is_latest(db.package_rows(), app_id@, i)
                &&& r.update_available == version_newer(latest.version, req.current_version)
                &&& r.update_available ==> (r.latest_package matches Some(m) && same_package(m, latest))
                &&& !r.update_available ==> r.latest_package is None && r.publisher_public_key is None
                &&& r.update_available && k < pubs.len() ==> (r.publisher_public_key matches Some(key)
                    && key.publisher_id@ == pubs[k].public_key.publisher_id@
                    && key.dilithium_public_key@ == pubs[k].public_key.dilithium_public_key@
                    && key.ed25519_public_key@ == pubs[k].public_key.ed25519_public_key@)
                &&& r.update_available && k >= pubs.len() ==> r.publisher_public_key is None
            },
{
    let latest = db.get_latest_package(app_id);
    let key = match &latest {
        Some(m) => match db.get_publisher(m.publisher_id.as_str()) {
            Some(p) => Some(p.public_key),
            None => None,
        },
        None => None,
    };
    check_update_response(latest, &req.current_version, key)
}

/// The refusal of a download of a package that is not stored.
pub fn package_not_found() -> (r: ApiError)
    ensures
        r.is(ApiStatus::NotFound, "Package not found"@),
{
    refuse_str(ApiStatus::NotFound, "Package not found")
}

/// The `Content-Disposition` of a download:
/// `attachment; filename="<app_id>-<version>.pkg"`.
pub fn download_disposition(app_id: &str, version: &str) -> (r: String)
    ensures
        r@ == "attachment; filename=\""@ + app_id@ + "-"@ + version@ + ".pkg\""@,
{
    let mut r = concat_str("attachment; filename=\"", app_id);
    r.append("-");
    r.append(version);
    r.append(".pkg\"");
    r
}

// ---------------------------------------------------------------------
// Publisher endpoints
// ---------------------------------------------------------------------

/// Keys may be registered only for the publisher of the session.
pub fn authorize_key_registration(req: &RegisterPublisherRequest, session_publisher_id: &str) -> (r: Result<
    (),
    ApiError,
>)
    ensures
        if req.public_key.publisher_id@ == session_publisher_id@ {
            r is Ok
        } else {
            r matches Err(e) && e.is(
                ApiStatus::Forbidden,
                "Key publisher_id '"@ + req.public_key.publisher_id@ + "' does not match session publisher_id '"@
                    + session_publisher_id@ + "'"@,
            )
        },
{
    if str_eq(req.public_key.publisher_id.as_str(), session_publisher_id) {
        return Ok(());
    }
    let mut t = concat_str("Key publisher_id '", req.public_key.publisher_id.as_str());
    t.append("' does not match session publisher_id '");
    t.append(session_publisher_id);
    t.append("'");
    Err(refuse(ApiStatus::Forbidden, t))
}

/// The publisher a key registration records, active from `now`.
pub fn new_publisher_info(req: &RegisterPublisherRequest, now: i64) -> (r: PublisherInfo)
    ensures
        r.id@ == req.public_key.publisher_id@,
        r.display_name@ == req.display_name@,
        r.public_key.publisher_id@ == req.public_key.publisher_id@,
        r.public_key.dilithium_public_key@ == req.public_key.dilithium_public_key@,
        r.public_key.ed25519_public_key@ == req.public_key.ed25519_public_key@,
        r.registered_at == now,
        r.active,
{
    PublisherInfo {
        id: copy_string(&req.public_key.publisher_id),
        display_name: copy_string(&req.display_name),
        public_key: HybridPublicKey {
            publisher_id: copy_string(&req.public_key.publisher_id),
            dilithium_public_key: copy_string(&req.public_key.dilithium_public_key),
            ed25519_public_key: copy_string(&req.public_key.ed25519_public_key),
        },
        registered_at: now,
        active: true,
    }
}

/// Registers the keys of the session's publisher at `now`: refused when
/// the key names another publisher, or when the publisher id is already
/// registered; otherwise the publisher is added, active, and the answer is
/// "created". A refused registration leaves the tables unchanged.
pub fn register_publisher(
    db: &mut Database,
    req: &RegisterPublisherRequest,
    session_publisher_id: &str,
    now: i64,
) -> (r: Result<ApiStatus, ApiError>)
    requires
        old(db).wf(),
    ensures
        final(db).wf(),
        final(db).package_rows() == old(db).package_rows(),
        req.public_key.publisher_id@ != session_publisher_id@ ==> (r matches Err(e) && e.is(
            ApiStatus::Forbidden,
            "Key publisher_id '"@ + req.public_key.publisher_id@ + "' does not match session publisher_id '"@
                + session_publisher_id@ + "'"@,
        )),
        req.public_key.publisher_id@ == session_publisher_id@ && publisher_index(
            old(db).publisher_rows(),
            req.public_key.publisher_id@,
        ) < old(db).publisher_rows().len() ==> (r matches Err(e) && e.is(
            ApiStatus::InternalServerError,
            "Failed to insert publisher"@,
        )),
        r is Err ==> final(db).publisher_rows() == old(db).publisher_rows(),
        r is Ok <==> (req.public_key.publisher_id@ == session_publisher_id@ && publisher_index(
            old(db).publisher_rows(),
            req.public_key.publisher_id@,
        ) == old(db).publisher_rows().len()),
        r is Ok ==> {
            let rows = final(db).publisher_rows();
            let p = rows[rows.len() - 1];
            &&& r == Ok::<ApiStatus, ApiError>(ApiStatus::Created)
            &&& rows.len() == old(db).publisher_rows().len() + 1
            &&& rows.drop_last() == old(db).publisher_rows()
            &&& p.id@ == req.public_key.publisher_id@
            &&& p.display_name@ == req.display_name@
            &&& p.public_key.publisher_id@ == req.public_key.publisher_id@
            &&& p.public_key.dilithium_public_key@ == req.public_key.dilithium_public_key@
            &&& p.public_key.ed25519_public_key@ == req.public_key.ed25519_public_key@
            &&& p.registered_at == now
            &&& p.active
        },
{
    match authorize_key_registration(req, session_publisher_id) {
        Ok(()) => {},
        Err(e) => return Err(e),
    }
    let publisher = new_publisher_info(req, now);
    proof {
        lemma_publisher_index(db.publisher_rows(), publisher.id@);
    }
    let stored = db.register_publisher(publisher);
    proof {
        if stored is Ok {
            assert(db.publisher_rows().drop_last() =~= old(db).publisher_rows());
        }
    }
    registration_outcome(stored)
}

/// What storing registered keys gave: refused with the database's error
/// text, or created.
pub fn registration_outcome(stored: Result<(), String>) -> (r: Result<ApiStatus, ApiError>)
    ensures
        match stored {
            Ok(()) => r == Ok::<ApiStatus, ApiError>(ApiStatus::Created),
            Err(t) => r matches Err(e) && e.is(ApiStatus::InternalServerError, t@),
        },
{
    match stored {
        Ok(()) => Ok(ApiStatus::Created),
        Err(t) => Err(refuse(ApiStatus::InternalServerError, t)),
    }
}

/// The answer to an upload of a package file to
/// `<publisher>/<app>/<version>` with the package rows and publisher rows
/// of the tables: the upload must come from the session's publisher, not
/// be empty, name a version, and follow the publication of metadata for
/// that application and version by that publisher (the latest such
/// publication counts); the publisher must be registered and active, and
/// the file must match the metadata's digest and hybrid signature; the
/// application id and version must be safe path components. An
/// accepted upload is answered with the file's hex SHA3-256 digest.
pub open spec fn upload_answer(
    pubs: Seq<PublisherInfo>,
    rows: Seq<PackageMetadata>,
    publisher_id: Seq<char>,
    app_id: Seq<char>,
    version: Seq<char>,
    session_publisher_id: Seq<char>,
    body: Seq<u8>,
    r: Result<String, ApiError>,
) -> bool {
    if publisher_id != session_publisher_id {
        r matches Err(e) && e.is(ApiStatus::Forbidden, "Publisher ID mismatch with session"@)
    } else if body.len() == 0 {
        r matches Err(e) && e.is(ApiStatus::BadRequest, "Empty package body"@)
    } else if !safe_component(app_id) || !safe_component(version) {
        r matches Err(e) && e.is(ApiStatus::BadRequest, "Invalid path component"@)
    } else {
        match version_parse(version) {
            None => r matches Err(e) && e.is(ApiStatus::BadRequest, version_parse_error(version)),
            Some(v) => {
                let i = release_index(rows, app_id, v);
                if i < 0 {
                    r matches Err(e) && e.is(
                        ApiStatus::NotFound,
                        "Package metadata not found. Publish metadata first."@,
                    )
                } else if rows[i].publisher_id@ != publisher_id {
                    r matches Err(e) && e.is(
                        ApiStatus::Forbidden,
                        "Package metadata belongs to another publisher"@,
                    )
                } else {
                    let k = publisher_index(pubs, publisher_id);
                    if k >= pubs.len() {
                        r matches Err(e) && e.is(
                            ApiStatus::NotFound,
                            "Publisher keys not found. Register keys first."@,
                        )
                    } else if !pubs[k].active {
                        r matches Err(e) && e.is(ApiStatus::Forbidden, "Publisher account is deactivated"@)
                    } else {
                        let computed = hex_of(sha3_256_digest(body));
                        match metadata_outcome(body, rows[i], pubs[k].public_key) {
                            Err(f) => r matches Err(e) && e.is(
                                ApiStatus::InternalServerError,
                                "Verification error: "@ + f.message_text(),
                            ),
                            Ok((h, d, g)) => if h && d && g {
                                r matches Ok(t) && t@ == computed
                            } else {
                                r matches Err(e) && e.is_detailed(
                                    ApiStatus::BadRequest,
                                    "Package verification failed"@,
                                    if h {
                                        details_text(d, g)
                                    } else {
                                        "Hash mismatch: expected "@ + rows[i].sha3_256_hash@ + ", got "@
                                            + computed
                                    },
                                )
                            },
                        }
                    }
                }
            },
        }
    }
}

/// The upload is of the file whose metadata the publisher published: its
/// digest matches and the published signature is the publisher's over its
/// package statement.
pub open spec fn genuine_upload(
    pubs: Seq<PublisherInfo>,
    rows: Seq<PackageMetadata>,
    publisher_id: Seq<char>,
    app_id: Seq<char>,
    version: Seq<char>,
    session_publisher_id: Seq<char>,
    body: Seq<u8>,
) -> bool {
    &&& publisher_id == session_publisher_id
    &&& body.len() > 0
    &&& safe_component(app_id)
    &&& safe_component(version)
    &&& version_parse(version) is Some
    &&& {
        let i = release_index(rows, app_id, version_parse(version)->0);
        let k = publisher_index(pubs, publisher_id);
        &&& i >= 0
        &&& rows[i].publisher_id@ == publisher_id
        &&& k < pubs.len()
        &&& pubs[k].active
        &&& hex_of(sha3_256_digest(body)) == rows[i].sha3_256_hash@
        &&& signed_by(
            metadata_message(rows[i]),
            rows[i].signature.dilithium_signature@,
            rows[i].signature.ed25519_signature@,
            pubs[k].public_key.dilithium_public_key@,
            pubs[k].public_key.ed25519_public_key@,
        )
    }
}

/// Accepts or refuses an upload of a package file for
/// `<publisher_id>/<app_id>/<version>` by the session's publisher; the
/// file is stored only when it is accepted, and only under safe path
/// components (see `lemma_package_path_inside`).
pub fn upload_package(
    db: &Database,
    publisher_id: &str,
    app_id: &str,
    version: &str,
    session_publisher_id: &str,
    body: &[u8],
) -> (r: Result<String, ApiError>)
    ensures
        upload_answer(
            db.publisher_rows(),
            db.package_rows(),
            publisher_id@,
            app_id@,
            version@,
            session_publisher_id@,
            body@,
            r,
        ),
        genuine_upload(
            db.publisher_rows(),
            db.package_rows(),
            publisher_id@,
            app_id@,
            version@,
            session_publisher_id@,
            body@,
        ) ==> r is Ok,
{
    proof {
        lemma_publisher_index(db.publisher_rows(), publisher_id@);
    }
    if !str_eq(publisher_id, session_publisher_id) {
        return Err(refuse_str(ApiStatus::Forbidden, "Publisher ID mismatch with session"));
    }
    if body.len() == 0 {
        return Err(refuse_str(ApiStatus::BadRequest, "Empty package body"));
    }
    if !is_safe_component(app_id) || !is_safe_component(version) {
        return Err(refuse_str(ApiStatus::BadRequest, "Invalid path component"));
    }
    let v = match SemanticVersion::parse(version) {
        Ok(v) => v,
        Err(t) => return Err(refuse(ApiStatus::BadRequest, t)),
    };
    let m = match db.find_release(app_id, &v) {
        Some(m) => m,
        None => {
            return Err(refuse_str(ApiStatus::NotFound, "Package metadata not found. Publish metadata first."));
        },
    };
    if !str_eq(m.publisher_id.as_str(), publisher_id) {
        return Err(refuse_str(ApiStatus::Forbidden, "Package metadata belongs to another publisher"));
    }
    let p = match db.get_publisher(publisher_id) {
        Some(p) => p,
        None => {
            return Err(refuse_str(ApiStatus::NotFound, "Publisher keys not found. Register keys first."));
        },
    };
    if !p.active {
        return Err(refuse_str(ApiStatus::Forbidden, "Publisher account is deactivated"));
    }
    match verify_package_metadata(&m, &p, body) {
        Ok(result) => {
            if result.overall_valid {
                Ok(compute_sha3_256_hex(body))
            } else {
                Err(
                    ApiError {
                        status: ApiStatus::BadRequest,
                        error: String::from_str("Package verification failed"),
                        details: Some(result.details),
                    },
                )
            }
        },
        Err(f) => Err(refuse(ApiStatus::InternalServerError, concat_str("Verification error: ", f.message().as_str()))),
    }
}

/// The metadata a publication records at `now`, before it gets an id.
pub open spec fn publication_of(req: PublishPackageRequest, m: PackageMetadata, now: i64) -> bool {
    &&& m.app_id@ == req.app_id@
    &&& m.version == req.version
    &&& m.publisher_id@ == req.publisher_id@
    &&& m.sha3_256_hash@ == req.sha3_256_hash@
    &&& m.file_size == req.file_size
    &&& m.filename@ == req.filename@
    &&& m.description@ == req.description@
    &&& m.target_platforms@ == req.target_platforms@
    &&& m.signature.dilithium_signature@ == req.signature.dilithium_signature@
    &&& m.signature.ed25519_signature@ == req.signature.ed25519_signature@
    &&& m.signature.publisher_id@ == req.signature.publisher_id@
    &&& m.signature.signed_at@ == req.signature.signed_at@
    &&& m.published_at == now
    &&& m.min_upgrade_from == req.min_upgrade_from
    &&& texts(m.changelog@) == texts(req.changelog@)
}

/// The publication comes from the session's active publisher, its
/// package was uploaded, and its digest and hybrid signature were made
/// over that package with the secret keys of the publisher's public key.
pub open spec fn genuine_publication(
    req: PublishPackageRequest,
    session_publisher_id: Seq<char>,
    publisher: Result<Option<PublisherInfo>, String>,
) -> bool {
    match publisher {
        Ok(Some(p)) => {
            &&& req.publisher_id@ == session_publisher_id
            &&& p.active
            &&& signed_by(
                request_message(req),
                req.signature.dilithium_signature@,
                req.signature.ed25519_signature@,
                p.public_key.dilithium_public_key@,
                p.public_key.ed25519_public_key@,
            )
        },
        _ => false,
    }
}

/// The outcome of reviewing a publication: the publisher must match the
/// session, be registered and active, and the hybrid signature over the
/// package statement of the request must verify against the publisher's
/// key; the accepted metadata gets a fresh 36-character id.
#[verifier::opaque]
pub open spec fn reviewed(
    req: PublishPackageRequest,
    session_publisher_id: Seq<char>,
    publisher: Result<Option<PublisherInfo>, String>,
    now: i64,
    r: Result<PackageMetadata, ApiError>,
) -> bool {
    if req.publisher_id@ != session_publisher_id {
        r matches Err(e) && e.is(ApiStatus::Forbidden, "Publisher ID mismatch with session"@)
    } else {
        match publisher {
            Err(t) => r matches Err(e) && e.is(ApiStatus::InternalServerError, t@),
            Ok(None) => r matches Err(e) && e.is(
                ApiStatus::NotFound,
                "Publisher keys not found. Register keys first."@,
            ),
            Ok(Some(p)) => if !p.active {
                r matches Err(e) && e.is(ApiStatus::Forbidden, "Publisher account is deactivated"@)
            } else {
                match hybrid_outcome(
                    request_message(req),
                    req.signature.dilithium_signature@,
                    req.signature.ed25519_signature@,
                    p.public_key.dilithium_public_key@,
                    p.public_key.ed25519_public_key@,
                ) {
                    Err(f) => r matches Err(e) && e.is(
                        ApiStatus::InternalServerError,
                        "Verification error: "@ + f.message_text(),
                    ),
                    Ok((dv, ev)) => if dv && ev {
                        r matches Ok(m) && publication_of(req, m, now) && m.package_id@.len() == 36
                    } else {
                        r matches Err(e) && e.is_detailed(
                            ApiStatus::BadRequest,
                            "Signature verification failed"@,
                            details_text(dv, ev),
                        )
                    },
                }
            },
        }
    }
}

/// Reviews a publication of package metadata by the session's publisher,
/// at `now`, with what looking up the publisher gave: the publisher must
/// match the session, be registered and active, and the hybrid signature
/// over the package statement (application, version, file name and
/// digest) must verify against the publisher's key. Metadata is published
/// before its file is uploaded. The accepted metadata gets a fresh id.
pub fn review_publication(
    req: &PublishPackageRequest,
    session_publisher_id: &str,
    publisher: Result<Option<PublisherInfo>, String>,
    now: i64,
) -> (r: Result<PackageMetadata, ApiError>)
    ensures
        reviewed(*req, session_publisher_id@, publisher, now, r),
        genuine_publication(*req, session_publisher_id@, publisher) ==> r is Ok,
{
    reveal(reviewed);
    if !str_eq(req.publisher_id.as_str(), session_publisher_id) {
        return Err(refuse_str(ApiStatus::Forbidden, "Publisher ID mismatch with session"));
    }
    let p = match publisher {
        Err(t) => return Err(refuse(ApiStatus::InternalServerError, t)),
        Ok(None) => {
            return Err(refuse_str(ApiStatus::NotFound, "Publisher keys not found. Register keys first."));
        },
        Ok(Some(p)) => p,
    };
    if !p.active {
        return Err(refuse_str(ApiStatus::Forbidden, "Publisher account is deactivated"));
    }
    let message = package_message_bytes(
        req.app_id.as_str(),
        &req.version,
        req.filename.as_str(),
        req.sha3_256_hash.as_str(),
    );
    match verify_hybrid_signature(message.as_slice(), &req.signature, &p.public_key) {
        Ok(result) => {
            if !result.overall_valid {
                return Err(
                    ApiError {
                        status: ApiStatus::BadRequest,
                        error: String::from_str("Signature verification failed"),
                        details: Some(result.details),
                    },
                );
            }
        },
        Err(f) => {
            return Err(refuse(ApiStatus::InternalServerError, concat_str("Verification error: ", f.message().as_str())));
        },
    }
    Ok(PackageMetadata {
        package_id: new_uuid_v4(),
        app_id: copy_string(&req.app_id),
        version: req.version,
        publisher_id: copy_string(&req.publisher_id),
        sha3_256_hash: copy_string(&req.sha3_256_hash),
        file_size: req.file_size,
        filename: copy_string(&req.filename),
        description: copy_string(&req.description),
        target_platforms: copy_platforms(&req.target_platforms),
        signature: copy_signature(&req.signature),
        published_at: now,
        min_upgrade_from: req.min_upgrade_from,
        changelog: copy_texts(&req.changelog),
    })
}

} // verus!

verus! {

/// A review depends on the publisher's record only through its values.
proof fn lemma_review_same_publisher(
    req: PublishPackageRequest,
    session_publisher_id: Seq<char>,
    p1: PublisherInfo,
    p2: PublisherInfo,
    now: i64,
    r: Result<PackageMetadata, ApiError>,
)
    requires
        same_publisher(p1, p2),
        reviewed(req, session_publisher_id, Ok(Some(p1)), now, r),
    ensures
        reviewed(req, session_publisher_id, Ok(Some(p2)), now, r),
        genuine_publication(req, session_publisher_id, Ok(Some(p2))) ==> genuine_publication(
            req,
            session_publisher_id,
            Ok(Some(p1)),
        ),
{
    reveal(reviewed);
}

/// What looking up a publisher's id in the publisher rows gives.
pub open spec fn publisher_lookup(rows: Seq<PublisherInfo>, id: Seq<char>) -> Result<Option<PublisherInfo>, String> {
    if publisher_index(rows, id) < rows.len() {
        Ok(Some(rows[publisher_index(rows, id)]))
    } else {
        Ok(None)
    }
}

/// The answer `r` to a publication and the package rows before and after
/// it, given the outcome of its review: accepted metadata is saved and its
/// id returned; a refusal is returned as it is.
pub open spec fn published(
    before: Seq<PackageMetadata>,
    after: Seq<PackageMetadata>,
    review: Result<PackageMetadata, ApiError>,
    r: Result<String, ApiError>,
) -> bool {
    match review {
        Ok(m) => r matches Ok(id) && id@ == m.package_id@ && after == after_save(before, m),
        Err(e) => r == Err::<String, ApiError>(e) && after == before,
    }
}

/// Publishes package metadata for the session's publisher at `now`, before
/// its file is uploaded: the publisher is looked up in the tables, the
/// publication is reviewed, and the accepted metadata is saved under its
/// fresh id, which is returned. A refused publication leaves the tables
/// unchanged.
pub fn publish_metadata(
    db: &mut Database,
    req: &PublishPackageRequest,
    session_publisher_id: &str,
    now: i64,
) -> (r: Result<String, ApiError>)
    requires
        old(db).wf(),
    ensures
        final(db).wf(),
        final(db).publisher_rows() == old(db).publisher_rows(),
        r is Err ==> final(db).package_rows() == old(db).package_rows(),
        exists|review: Result<PackageMetadata, ApiError>|
            #[trigger] reviewed(
                *req,
                session_publisher_id@,
                publisher_lookup(old(db).publisher_rows(), req.publisher_id@),
                now,
                review,
            ) && published(old(db).package_rows(), final(db).package_rows(), review, r),
        genuine_publication(
            *req,
            session_publisher_id@,
            publisher_lookup(old(db).publisher_rows(), req.publisher_id@),
        ) ==> r is Ok,
{
    let ghost pubs = db.publisher_rows();
    let publisher = db.get_publisher(req.publisher_id.as_str());
    let ghost k = publisher_index(pubs, req.publisher_id@);
    let ghost lookup = publisher_lookup(pubs, req.publisher_id@);
    let review = review_publication(req, session_publisher_id, Ok(publisher), now);
    proof {
        if k < pubs.len() {
            lemma_review_same_publisher(
                *req,
                session_publisher_id@,
                publisher.unwrap(),
                pubs[k],
                now,
                review,
            );
        }
        assert(reviewed(*req, session_publisher_id@, lookup, now, review));
    }
    let ghost before = db.package_rows();
    let ghost rv = review;
    let r = match review {
        Ok(m) => {
            let id = copy_string(&m.package_id);
            db.save_package_metadata(m);
            Ok(id)
        },
        Err(e) => Err(e),
    };
    proof {
        assert(published(before, db.package_rows(), rv, r));
        assert(reviewed(*req, session_publisher_id@, lookup, now, rv));
    }
    r
}

} // verus!

verus! {

/// Metadata that a review accepted lets the file it describes pass the
/// digest and signature checks of an upload: the signature verified at
/// publication is over the same package statement.
pub proof fn lemma_accepted_metadata_accepts_its_file(
    req: PublishPackageRequest,
    session_publisher_id: Seq<char>,
    p: PublisherInfo,
    now: i64,
    m: PackageMetadata,
    body: Seq<u8>,
)
    requires
        reviewed(req, session_publisher_id, Ok(Some(p)), now, Ok(m)),
        hex_of(sha3_256_digest(body)) == m.sha3_256_hash@,
    ensures
        metadata_outcome(body, m, p.public_key) == Ok::<(bool, bool, bool), CryptoFailure>((true, true, true)),
{
    reveal(reviewed);
    assert(metadata_message(m) == request_message(req));
}

/// Publishing metadata and then uploading the non-empty file it describes
/// to its application and version succeeds: once the publication is saved,
/// the upload finds it as the latest publication of that version, by the
/// same publisher, whose key verified its signature.
pub proof fn lemma_publish_then_upload(
    pubs: Seq<PublisherInfo>,
    before: Seq<PackageMetadata>,
    req: PublishPackageRequest,
    session_publisher_id: Seq<char>,
    now: i64,
    m: PackageMetadata,
    body: Seq<u8>,
    r: Result<String, ApiError>,
)
    requires
        reviewed(req, session_publisher_id, publisher_lookup(pubs, req.publisher_id@), now, Ok(m)),
        body.len() > 0,
        safe_component(req.app_id@),
        safe_component(version_text(req.version)),
        hex_of(sha3_256_digest(body)) == req.sha3_256_hash@,
        upload_answer(
            pubs,
            after_save(before, m),
            req.publisher_id@,
            req.app_id@,
            version_text(req.version),
            session_publisher_id,
            body,
            r,
        ),
    ensures
        r is Ok,
{
    reveal(reviewed);
    lemma_version_text_roundtrip(req.version);
    let rows = after_save(before, m);
    let last = rows.len() - 1;
    lemma_package_index(before, m.package_id@);
    assert(rows[last] == m);
    lemma_release_index(rows, req.app_id@, req.version);
    assert(release_index(rows, req.app_id@, req.version) == last);
    let k = publisher_index(pubs, req.publisher_id@);
    lemma_publisher_index(pubs, req.publisher_id@);
    assert(k < pubs.len());
    lemma_accepted_metadata_accepts_its_file(req, session_publisher_id, pubs[k], now, m, body);
}

} // verus!
