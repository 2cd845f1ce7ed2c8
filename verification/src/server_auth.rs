//! Accounts of the update server: salted SHA3-256 password digests,
//! random salts and session tokens, and the login messages.

use vstd::prelude::*;
use vstd::utf8::encode_utf8;
use crate::backend::{sha3_256, sha3_256_digest, random_bytes};
use crate::hex::{hex_of, encode_hex, constant_time_eq_str};
use crate::text::concat_bytes;

verus! {

/// A login request.
#[derive(Clone, Debug)]
pub struct LoginRequest {
    pub username: String,
    pub password: String,
}

/// A request to create a publisher account.
#[derive(Clone, Debug)]
pub struct RegisterAccountRequest {
    pub username: String,
    pub password: String,
    pub publisher_id: String,
    pub display_name: String,
}

/// The answer to a successful login.
#[derive(Clone, Debug)]
pub struct LoginResponse {
    pub token: String,
    pub publisher_id: String,
    pub expires_at: String,
}

/// The pepper appended to every password before hashing.
pub open spec fn password_pepper() -> Seq<char> {
    "secure-update-system-2026"@
}

/// The stored digest of a password: lower-case hex of the SHA3-256 digest
/// of the UTF-8 bytes of the salt, the password and the pepper.
pub open spec fn password_digest(password: Seq<char>, salt: Seq<char>) -> Seq<char> {
    hex_of(sha3_256_digest(encode_utf8(salt) + encode_utf8(password) + encode_utf8(password_pepper())))
}

/// Hashes a password with its salt.
pub fn hash_password(password: &str, salt: &str) -> (r: String)
    ensures
        r@ == password_digest(password@, salt@),
{
    let s = salt.as_bytes_vec();
    let p = password.as_bytes_vec();
    let pepper = "secure-update-system-2026".as_bytes_vec();
    let sp = concat_bytes(s.as_slice(), p.as_slice());
    let data = concat_bytes(sp.as_slice(), pepper.as_slice());
    let digest = sha3_256(data.as_slice());
    encode_hex(digest.as_slice())
}

/// Checks a password against a stored digest, comparing in constant time.
pub fn verify_password(password: &str, salt: &str, expected_hash: &str) -> (r: bool)
    ensures
        r == (password_digest(password@, salt@) == expected_hash@),
{
    let computed = hash_password(password, salt);
    constant_time_eq_str(computed.as_str(), expected_hash)
}

/// A fresh random salt: 32 random bytes in hex.
pub fn generate_salt() -> (r: String)
    ensures
        r@.len() == 64,
        exists|b: Seq<u8>| b.len() == 32 && r@ == hex_of(b),
{
    let b = random_bytes(32);
    encode_hex(b.as_slice())
}

/// A fresh session token: 64 random bytes in hex.
pub fn generate_session_token() -> (r: String)
    ensures
        r@.len() == 128,
        exists|b: Seq<u8>| b.len() == 64 && r@ == hex_of(b),
{
    let b = random_bytes(64);
    encode_hex(b.as_slice())
}

} // verus!
