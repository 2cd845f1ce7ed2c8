//! The calls into outside crates: digests (sha3, blake3), base64, Ed25519
//! (ed25519-dalek), Dilithium3 (pqcrypto-dilithium), the operating
//! system's randomness and the clock (chrono). Each function here is
//! trusted: Verus believes its contract and does not read its body.

use vstd::prelude::*;
use crate::base64_text::{base64_of, base64_decoded};

verus! {

// ---------------------------------------------------------------------
// Digests
// ---------------------------------------------------------------------

/// The SHA3-256 digest of a byte string.
pub uninterp spec fn sha3_256_digest(data: Seq<u8>) -> Seq<u8>;

/// The SHA3-512 digest of a byte string.
pub uninterp spec fn sha3_512_digest(data: Seq<u8>) -> Seq<u8>;

/// The BLAKE3 digest (default 32-byte output) of a byte string.
pub uninterp spec fn blake3_digest(data: Seq<u8>) -> Seq<u8>;

/// Calls `sha3::Sha3_256::digest`; claims the result is the SHA3-256
/// digest of `data`, 32 bytes long.
#[verifier::external_body]
pub(crate) fn sha3_256(data: &[u8]) -> (r: Vec<u8>)
    ensures
        r@ == sha3_256_digest(data@),
        r@.len() == 32,
{
    <sha3::Sha3_256 as sha3::Digest>::digest(data).to_vec()
}

/// Calls `sha3::Sha3_512::digest`; claims the result is the SHA3-512
/// digest of `data`, 64 bytes long.
#[verifier::external_body]
pub(crate) fn sha3_512(data: &[u8]) -> (r: Vec<u8>)
    ensures
        r@ == sha3_512_digest(data@),
        r@.len() == 64,
{
    <sha3::Sha3_512 as sha3::Digest>::digest(data).to_vec()
}

/// Calls `blake3::hash`; claims the result is the BLAKE3 digest of `data`,
/// 32 bytes long.
#[verifier::external_body]
pub(crate) fn blake3_hash(data: &[u8]) -> (r: Vec<u8>)
    ensures
        r@ == blake3_digest(data@),
        r@.len() == 32,
{
    blake3::hash(data).as_bytes().to_vec()
}

// ---------------------------------------------------------------------
// Base64 (standard alphabet, padded)
// ---------------------------------------------------------------------

/// Calls `Engine::encode` of `base64::engine::general_purpose::STANDARD`;
/// claims the text is the padded standard encoding `base64_of(data)`.
#[verifier::external_body]
pub(crate) fn base64_encode(data: &[u8]) -> (r: String)
    ensures
        r@ == base64_of(data@),
{
    base64::Engine::encode(&base64::engine::general_purpose::STANDARD, data)
}

/// The text `base64::DecodeError` displays when decoding `s` fails.
pub uninterp spec fn base64_error_text(s: Seq<char>) -> Seq<char>;

/// Calls `Engine::decode` of `base64::engine::general_purpose::STANDARD`
/// on the UTF-8 bytes of `s`; claims it succeeds exactly on canonical
/// padded encodings (that engine requires canonical padding and zero
/// trailing bits) and then returns the encoded bytes, and that on failure
/// the text is the error's display, `base64_error_text(s)`.
#[verifier::external_body]
pub(crate) fn base64_decode(s: &str) -> (r: Result<Vec<u8>, String>)
    ensures
        match r {
            Ok(v) => base64_decoded(s@) == Some(v@),
            Err(t) => base64_decoded(s@) is None && t@ == base64_error_text(s@),
        },
{
    match base64::Engine::decode(&base64::engine::general_purpose::STANDARD, s) {
        Ok(v) => Ok(v),
        Err(e) => Err(e.to_string()),
    }
}

// ---------------------------------------------------------------------
// Ed25519
// ---------------------------------------------------------------------

/// The verifying key (compressed point) of a 32-byte Ed25519 secret key.
pub uninterp spec fn ed25519_public_of(secret: Seq<u8>) -> Seq<u8>;

/// The 32 bytes decompress to a curve point.
pub uninterp spec fn ed25519_point_decodes(public: Seq<u8>) -> bool;

/// The Ed25519 signature of `msg` under a 32-byte secret key.
pub uninterp spec fn ed25519_signature(secret: Seq<u8>, msg: Seq<u8>) -> Seq<u8>;

/// `ed25519_dalek` accepts `sig` on `msg` under the key `public`.
pub uninterp spec fn ed25519_verifies(public: Seq<u8>, msg: Seq<u8>, sig: Seq<u8>) -> bool;

/// Calls `SigningKey::generate` with the operating system's random number
/// generator and returns the secret key bytes; claims only that they are
/// 32 bytes long.
#[verifier::external_body]
pub(crate) fn ed25519_generate_secret() -> (r: Vec<u8>)
    ensures
        r@.len() == 32,
{
    ed25519_dalek::SigningKey::generate(&mut rand::rngs::OsRng).to_bytes().to_vec()
}

/// Calls `SigningKey::verifying_key` on the key made from `secret` by
/// `SigningKey::from_bytes`; claims the result is `ed25519_public_of` of
/// the secret, 32 bytes long.
#[verifier::external_body]
pub(crate) fn ed25519_public_key(secret: &[u8]) -> (r: Vec<u8>)
    requires
        secret@.len() == 32,
    ensures
        r@ == ed25519_public_of(secret@),
        r@.len() == 32,
{
    let bytes: [u8; 32] = secret.try_into().unwrap();
    ed25519_dalek::SigningKey::from_bytes(&bytes).verifying_key().to_bytes().to_vec()
}

/// Calls `Signer::sign` on the key made from `secret`; claims the result
/// is the 64-byte signature `ed25519_signature(secret, msg)`.
#[verifier::external_body]
pub(crate) fn ed25519_sign(secret: &[u8], msg: &[u8]) -> (r: Vec<u8>)
    requires
        secret@.len() == 32,
    ensures
        r@ == ed25519_signature(secret@, msg@),
        r@.len() == 64,
{
    let bytes: [u8; 32] = secret.try_into().unwrap();
    let key = ed25519_dalek::SigningKey::from_bytes(&bytes);
    ed25519_dalek::Signer::sign(&key, msg).to_bytes().to_vec()
}

/// Calls `VerifyingKey::from_bytes`; claims it succeeds exactly when the
/// 32 bytes decompress to a curve point, which the verifying key of any
/// secret key does.
#[verifier::external_body]
pub(crate) fn ed25519_point_check(public: &[u8]) -> (r: bool)
    requires
        public@.len() == 32,
    ensures
        r == ed25519_point_decodes(public@),
        (exists|sk: Seq<u8>| sk.len() == 32 && public@ == #[trigger] ed25519_public_of(sk)) ==> r,
{
    let pk: [u8; 32] = public.try_into().unwrap();
    ed25519_dalek::VerifyingKey::from_bytes(&pk).is_ok()
}

/// Calls `Verifier::verify` of `sig` on `msg` with the verifying key made
/// from `public` (which decompresses); claims the result is
/// `ed25519_verifies(public, msg, sig)`, and that a signature made on
/// `msg` with the secret key of `public` verifies (Ed25519 correctness).
#[verifier::external_body]
pub(crate) fn ed25519_verify(public: &[u8], msg: &[u8], sig: &[u8]) -> (r: bool)
    requires
        public@.len() == 32,
        ed25519_point_decodes(public@),
        sig@.len() == 64,
    ensures
        r == ed25519_verifies(public@, msg@, sig@),
        (exists|sk: Seq<u8>|
            sk.len() == 32 && public@ == #[trigger] ed25519_public_of(sk) && sig@
                == ed25519_signature(sk, msg@)) ==> r,
{
    let pk: [u8; 32] = public.try_into().unwrap();
    let sg: [u8; 64] = sig.try_into().unwrap();
    let key = ed25519_dalek::VerifyingKey::from_bytes(&pk).unwrap();
    ed25519_dalek::Verifier::verify(&key, msg, &ed25519_dalek::Signature::from_bytes(&sg)).is_ok()
}

// ---------------------------------------------------------------------
// Dilithium3 (ML-DSA-65)
// ---------------------------------------------------------------------

/// Length of a Dilithium3 public key in bytes.
pub const DILITHIUM3_PUBLIC_KEY_BYTES: usize = 1952;
/// Length of a Dilithium3 secret key in bytes.
pub const DILITHIUM3_SECRET_KEY_BYTES: usize = 4032;
/// Length of a Dilithium3 detached signature in bytes.
pub const DILITHIUM3_SIGNATURE_BYTES: usize = 3309;

/// `pk` and `sk` were produced together by one key generation.
pub uninterp spec fn dilithium3_keypair_matches(pk: Seq<u8>, sk: Seq<u8>) -> bool;

/// The detached signature of `msg` under the secret key `sk`
/// (the clean PQClean signing is deterministic).
pub uninterp spec fn dilithium3_signature(msg: Seq<u8>, sk: Seq<u8>) -> Seq<u8>;

/// `verify_detached_signature` accepts `sig` on `msg` under `pk`.
pub uninterp spec fn dilithium3_verifies(sig: Seq<u8>, msg: Seq<u8>, pk: Seq<u8>) -> bool;

/// Calls `dilithium3::keypair`; claims the key lengths and that the two
/// keys belong together.
#[verifier::external_body]
pub(crate) fn dilithium3_keypair() -> (r: (Vec<u8>, Vec<u8>))
    ensures
        r.0@.len() == DILITHIUM3_PUBLIC_KEY_BYTES,
        r.1@.len() == DILITHIUM3_SECRET_KEY_BYTES,
        dilithium3_keypair_matches(r.0@, r.1@),
{
    let (pk, sk) = pqcrypto_dilithium::dilithium3::keypair();
    (
        pqcrypto_traits::sign::PublicKey::as_bytes(&pk).to_vec(),
        pqcrypto_traits::sign::SecretKey::as_bytes(&sk).to_vec(),
    )
}

/// Calls `dilithium3::detached_sign` with the secret key made by
/// `SecretKey::from_bytes` (which accepts exactly 4032 bytes); claims the
/// result is `dilithium3_signature(msg, sk)`, 3309 bytes long.
#[verifier::external_body]
pub(crate) fn dilithium3_sign(msg: &[u8], sk: &[u8]) -> (r: Vec<u8>)
    requires
        sk@.len() == DILITHIUM3_SECRET_KEY_BYTES,
    ensures
        r@ == dilithium3_signature(msg@, sk@),
        r@.len() == DILITHIUM3_SIGNATURE_BYTES,
{
    let key = <pqcrypto_dilithium::dilithium3::SecretKey as pqcrypto_traits::sign::SecretKey>::from_bytes(sk).unwrap();
    let sig = pqcrypto_dilithium::dilithium3::detached_sign(msg, &key);
    pqcrypto_traits::sign::DetachedSignature::as_bytes(&sig).to_vec()
}

/// Calls `dilithium3::verify_detached_signature` with the key and
/// signature made by `PublicKey::from_bytes` (exactly 1952 bytes) and
/// `DetachedSignature::from_bytes` (at most 3309 bytes); claims the result
/// is `dilithium3_verifies(sig, msg, pk)`, and that a signature made with
/// the secret key generated together with `pk` verifies (Dilithium
/// correctness).
#[verifier::external_body]
pub(crate) fn dilithium3_verify(sig: &[u8], msg: &[u8], pk: &[u8]) -> (r: bool)
    requires
        pk@.len() == DILITHIUM3_PUBLIC_KEY_BYTES,
        sig@.len() <= DILITHIUM3_SIGNATURE_BYTES,
    ensures
        r == dilithium3_verifies(sig@, msg@, pk@),
        (exists|sk: Seq<u8>|
            dilithium3_keypair_matches(pk@, sk) && sig@ == #[trigger] dilithium3_signature(msg@, sk))
            ==> r,
{
    let key = <pqcrypto_dilithium::dilithium3::PublicKey as pqcrypto_traits::sign::PublicKey>::from_bytes(pk).unwrap();
    let s = <pqcrypto_dilithium::dilithium3::DetachedSignature as pqcrypto_traits::sign::DetachedSignature>::from_bytes(sig).unwrap();
    pqcrypto_dilithium::dilithium3::verify_detached_signature(&s, msg, &key).is_ok()
}

// ---------------------------------------------------------------------
// Randomness and text
// ---------------------------------------------------------------------

/// Fills `n` bytes from the operating system's random number generator
/// (`RngCore::fill_bytes` of `rand::rngs::OsRng`); claims only the length.
#[verifier::external_body]
pub(crate) fn random_bytes(n: usize) -> (r: Vec<u8>)
    ensures
        r@.len() == n,
{
    let mut buf = vec![0u8; n];
    rand::RngCore::fill_bytes(&mut rand::rngs::OsRng, &mut buf);
    buf
}

/// The lower-case form of a text as `str::to_lowercase` gives it.
pub uninterp spec fn lowercase_of(s: Seq<char>) -> Seq<char>;

/// Calls `str::to_lowercase`; claims the result is `lowercase_of(s)`.
#[verifier::external_body]
pub(crate) fn to_lowercase(s: &str) -> (r: String)
    ensures
        r@ == lowercase_of(s@),
{
    s.to_lowercase()
}

/// The text chrono prints for a UTC time given in seconds since the Unix
/// epoch (`DateTime<Utc>` display, e.g. `2024-01-01 00:00:00 UTC`).
pub uninterp spec fn utc_text(secs: i64) -> Seq<char>;

/// Calls `chrono::DateTime::<Utc>::from_timestamp` and formats the time
/// with its `Display`; claims the result is `utc_text(secs)`. Times
/// outside chrono's range print as the Unix epoch.
#[verifier::external_body]
pub(crate) fn format_utc(secs: i64) -> (r: String)
    ensures
        r@ == utc_text(secs),
{
    format!("{}", chrono::DateTime::<chrono::Utc>::from_timestamp(secs, 0).unwrap_or_default())
}

/// Calls `uuid::Uuid::new_v4` and formats it with `to_string`, which
/// gives the 36-character hyphenated form; claims only that length.
#[verifier::external_body]
pub(crate) fn new_uuid_v4() -> (r: String)
    ensures
        r@.len() == 36,
{
    uuid::Uuid::new_v4().to_string()
}

/// Calls `std::path::Path::exists` on the path; what it returns depends on
/// the file system, so nothing is claimed of it.
#[verifier::external_body]
pub(crate) fn path_exists(path: &str) -> (r: bool) {
    std::path::Path::new(path).exists()
}

// ---------------------------------------------------------------------
// Clock
// ---------------------------------------------------------------------

/// Calls `chrono::Utc::now` and formats it with `to_rfc3339`; nothing is
/// claimed of the text.
#[verifier::external_body]
pub(crate) fn now_rfc3339() -> (r: String) {
    chrono::Utc::now().to_rfc3339()
}

/// Calls `chrono::Utc::now` and returns its `timestamp` (seconds since
/// the Unix epoch); nothing is claimed of the value.
#[verifier::external_body]
pub(crate) fn now_unix_seconds() -> (r: i64) {
    chrono::Utc::now().timestamp()
}

} // verus!
