//! The publisher tool's master password digest.

use vstd::prelude::*;
use vstd::utf8::encode_utf8;
use crate::backend::{sha3_256, sha3_256_digest};
use crate::hex::{hex_of, encode_hex};
use crate::text::concat_bytes;

verus! {

/// The fixed salt put before the master password.
pub open spec fn master_salt() -> Seq<char> {
    "publisher-tool-salt-kosciuszkon2026"@
}

/// Lower-case hex of the SHA3-256 digest of the salt and the UTF-8 bytes
/// of the password.
pub fn hash_password(password: &str) -> (r: String)
    ensures
        r@ == hex_of(sha3_256_digest(encode_utf8(master_salt()) + encode_utf8(password@))),
{
    let salt = "publisher-tool-salt-kosciuszkon2026".as_bytes_vec();
    let p = password.as_bytes_vec();
    let data = concat_bytes(salt.as_slice(), p.as_slice());
    let digest = sha3_256(data.as_slice());
    encode_hex(digest.as_slice())
}

} // verus!
