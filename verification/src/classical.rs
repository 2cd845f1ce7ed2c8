//! Ed25519 key pairs for classical signatures.

use vstd::prelude::*;
use crate::backend::{
    blake3_hash, blake3_digest, base64_encode, ed25519_generate_secret, ed25519_public_key,
    ed25519_sign, ed25519_point_check, ed25519_verify, ed25519_public_of, ed25519_point_decodes,
    ed25519_signature, ed25519_verifies,
};
use crate::base64_text::base64_of;
use crate::core_types::{CryptoError, key_format_text, verification_failed_text};
use crate::hex::{hex_of, encode_hex};
use crate::text::{prefix_bytes, copy_bytes};

verus! {

/// An Ed25519 key pair; the secret key is absent in a verify-only pair.
#[derive(Clone, Debug)]
pub struct Ed25519KeyPair {
    pub public_key: Vec<u8>,
    pub secret_key: Option<Vec<u8>>,
    pub key_id: String,
}

/// The key id of a public key: hex of the first 8 bytes of its BLAKE3
/// digest.
pub open spec fn short_key_id(public_key: Seq<u8>) -> Seq<char> {
    hex_of(blake3_digest(public_key).take(8))
}

pub(crate) fn short_key_id_of(public_key: &[u8]) -> (r: String)
    ensures
        r@ == short_key_id(public_key@),
        r@.len() == 16,
{
    let h = blake3_hash(public_key);
    let p = prefix_bytes(h.as_slice(), 8);
    encode_hex(p.as_slice())
}

/// The text of the error `Ed25519KeyPair::verify` gives for this key,
/// message and signature, or `None` when the signature verifies.
pub open spec fn ed25519_verify_error(public_key: Seq<u8>, message: Seq<u8>, signature: Seq<u8>) -> Option<
    Seq<char>,
> {
    if public_key.len() != 32 {
        Some(key_format_text("Invalid public key length"@))
    } else if !ed25519_point_decodes(public_key) {
        Some(key_format_text("signature error: Cannot decompress Edwards point"@))
    } else if signature.len() != 64 {
        Some(key_format_text("Invalid signature length"@))
    } else if ed25519_verifies(public_key, message, signature) {
        None
    } else {
        Some(verification_failed_text())
    }
}

impl Ed25519KeyPair {
    /// The secret key bytes, if present.
    pub open spec fn secret(&self) -> Option<Seq<u8>> {
        match self.secret_key {
            Some(v) => Some(v@),
            None => None,
        }
    }

    /// A present secret key has the Ed25519 length.
    pub open spec fn wf(&self) -> bool {
        self.secret() matches Some(sk) ==> sk.len() == 32
    }

    /// The pair holds a secret key and the public key belonging to it.
    pub open spec fn complete(&self) -> bool {
        &&& self.secret() matches Some(sk) && sk.len() == 32 && self.public_key@ == ed25519_public_of(sk)
        &&& self.public_key@.len() == 32
    }

    /// Generates a fresh key pair.
    pub fn generate() -> (r: Result<Self, CryptoError>)
        ensures
            r matches Ok(kp) && kp.wf() && kp.complete() && kp.key_id@ == short_key_id(
                kp.public_key@,
            ) && kp.key_id@.len() == 16,
    {
        let sk = ed25519_generate_secret();
        let pk = ed25519_public_key(sk.as_slice());
        let key_id = short_key_id_of(pk.as_slice());
        Ok(Ed25519KeyPair { public_key: pk, secret_key: Some(sk), key_id })
    }

    /// A verify-only pair; the public key must be 32 bytes.
    pub fn from_public_key(public_key: &[u8], key_id: &str) -> (r: Result<Self, CryptoError>)
        ensures
            public_key@.len() == 32 ==> (r matches Ok(kp) && kp.public_key@ == public_key@
                && kp.secret_key is None && kp.key_id@ == key_id@),
            public_key@.len() != 32 ==> (r matches Err(e) && e.is_invalid_key(
                "Ed25519 public key must be 32 bytes"@,
            )),
    {
        if public_key.len() != 32 {
            return Err(CryptoError::InvalidKeyFormat(String::from_str("Ed25519 public key must be 32 bytes")));
        }
        Ok(Ed25519KeyPair {
            public_key: copy_bytes(public_key),
            secret_key: None,
            key_id: String::from_str(key_id),
        })
    }

    /// Signs a message with the secret key.
    pub fn sign(&self, message: &[u8]) -> (r: Result<Vec<u8>, CryptoError>)
        requires
            self.wf(),
        ensures
            match self.secret() {
                Some(sk) => r matches Ok(sig) && sig@ == ed25519_signature(sk, message@) && sig@.len() == 64,
                None => r matches Err(e) && e.is_invalid_key("No secret key available"@),
            },
    {
        match &self.secret_key {
            Some(sk) => Ok(ed25519_sign(sk.as_slice(), message)),
            None => Err(CryptoError::InvalidKeyFormat(String::from_str("No secret key available"))),
        }
    }

    /// Verifies a signature: `Ok(true)` when it verifies,
    /// `VerificationFailed` when it does not, and `InvalidKeyFormat` when
    /// the key or the signature is malformed.
    pub fn verify(&self, message: &[u8], signature: &[u8]) -> (r: Result<bool, CryptoError>)
        ensures
            self.public_key@.len() != 32 ==> (r matches Err(e) && e.is_invalid_key(
                "Invalid public key length"@,
            )),
            self.public_key@.len() == 32 && !ed25519_point_decodes(self.public_key@) ==> (r matches Err(
                e,
            ) && e.is_invalid_key("signature error: Cannot decompress Edwards point"@)),
            self.public_key@.len() == 32 && ed25519_point_decodes(self.public_key@)
                && signature@.len() != 64 ==> (r matches Err(e) && e.is_invalid_key(
                "Invalid signature length"@,
            )),
            self.public_key@.len() == 32 && ed25519_point_decodes(self.public_key@)
                && signature@.len() == 64 ==> if ed25519_verifies(
                self.public_key@,
                message@,
                signature@,
            ) {
                r matches Ok(b) && b
            } else {
                r matches Err(CryptoError::VerificationFailed)
            },
            self.public_key@.len() == 32 && signature@.len() == 64 && (exists|sk: Seq<u8>|
                sk.len() == 32 && self.public_key@ == #[trigger] ed25519_public_of(sk)
                    && signature@ == ed25519_signature(sk, message@)) ==> (r matches Ok(b) && b),
    {
        if self.public_key.len() != 32 {
            return Err(CryptoError::InvalidKeyFormat(String::from_str("Invalid public key length")));
        }
        if !ed25519_point_check(self.public_key.as_slice()) {
            return Err(
                CryptoError::InvalidKeyFormat(
                    String::from_str("signature error: Cannot decompress Edwards point"),
                ),
            );
        }
        if signature.len() != 64 {
            return Err(CryptoError::InvalidKeyFormat(String::from_str("Invalid signature length")));
        }
        if ed25519_verify(self.public_key.as_slice(), message, signature) {
            Ok(true)
        } else {
            Err(CryptoError::VerificationFailed)
        }
    }

    /// The public key in base64.
    pub fn public_key_base64(&self) -> (r: String)
        ensures
            r@ == base64_of(self.public_key@),
    {
        base64_encode(self.public_key.as_slice())
    }
}

} // verus!
