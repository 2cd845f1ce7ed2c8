//! ML-DSA-65 (Dilithium3) key pairs for post-quantum signatures.

use vstd::prelude::*;
use crate::backend::{
    dilithium3_keypair, dilithium3_sign, dilithium3_verify, dilithium3_keypair_matches,
    dilithium3_signature, dilithium3_verifies, DILITHIUM3_PUBLIC_KEY_BYTES,
    DILITHIUM3_SECRET_KEY_BYTES, DILITHIUM3_SIGNATURE_BYTES,
};
use crate::classical::{short_key_id, short_key_id_of};
use crate::core_types::{CryptoError, key_format_text, verification_failed_text};
use crate::text::{copy_bytes, concat_str};

verus! {

/// An ML-DSA-65 key pair; the secret key is absent in a verify-only pair.
#[derive(Clone, Debug)]
pub struct MlDsaKeyPair {
    pub public_key: Vec<u8>,
    pub secret_key: Option<Vec<u8>>,
    pub key_id: String,
}

/// The text of the error `MlDsaKeyPair::verify` gives for this key,
/// message and signature, or `None` when the signature verifies.
pub open spec fn ml_dsa_verify_error(public_key: Seq<u8>, message: Seq<u8>, signature: Seq<u8>) -> Option<
    Seq<char>,
> {
    if public_key.len() != DILITHIUM3_PUBLIC_KEY_BYTES {
        Some(key_format_text("Invalid public key"@))
    } else if signature.len() > DILITHIUM3_SIGNATURE_BYTES {
        Some(key_format_text("Invalid signature format"@))
    } else if dilithium3_verifies(signature, message, public_key) {
        None
    } else {
        Some(verification_failed_text())
    }
}

impl MlDsaKeyPair {
    /// The secret key bytes, if present.
    pub open spec fn secret(&self) -> Option<Seq<u8>> {
        match self.secret_key {
            Some(v) => Some(v@),
            None => None,
        }
    }

    /// The pair holds a secret key generated together with its public key.
    pub open spec fn complete(&self) -> bool {
        &&& self.secret() matches Some(sk) && dilithium3_keypair_matches(self.public_key@, sk)
            && sk.len() == DILITHIUM3_SECRET_KEY_BYTES
        &&& self.public_key@.len() == DILITHIUM3_PUBLIC_KEY_BYTES
    }

    /// Generates a fresh key pair; its id is `pq-` and the short id of the
    /// public key.
    pub fn generate() -> (r: Result<Self, CryptoError>)
        ensures
            r matches Ok(kp) && kp.complete() && kp.key_id@ == "pq-"@ + short_key_id(kp.public_key@)
                && kp.key_id@.len() == 19,
    {
        let (pk, sk) = dilithium3_keypair();
        let short = short_key_id_of(pk.as_slice());
        let key_id = concat_str("pq-", short.as_str());
        proof {
            reveal_strlit("pq-");
        }
        Ok(MlDsaKeyPair { public_key: pk, secret_key: Some(sk), key_id })
    }

    /// A verify-only pair; the public key must have the Dilithium3 length.
    pub fn from_public_key(public_key: &[u8], key_id: &str) -> (r: Result<Self, CryptoError>)
        ensures
            public_key@.len() == DILITHIUM3_PUBLIC_KEY_BYTES ==> (r matches Ok(kp) && kp.public_key@
                == public_key@ && kp.secret_key is None && kp.key_id@ == key_id@),
            public_key@.len() != DILITHIUM3_PUBLIC_KEY_BYTES ==> (r matches Err(e) && e.is_invalid_key(
                "Invalid ML-DSA-65 public key"@,
            )),
    {
        if public_key.len() != DILITHIUM3_PUBLIC_KEY_BYTES {
            return Err(CryptoError::InvalidKeyFormat(String::from_str("Invalid ML-DSA-65 public key")));
        }
        Ok(MlDsaKeyPair {
            public_key: copy_bytes(public_key),
            secret_key: None,
            key_id: String::from_str(key_id),
        })
    }

    /// Makes a detached signature.
    pub fn sign(&self, message: &[u8]) -> (r: Result<Vec<u8>, CryptoError>)
        ensures
            match self.secret() {
                None => r matches Err(e) && e.is_invalid_key("No secret key available"@),
                Some(sk) => if sk.len() == DILITHIUM3_SECRET_KEY_BYTES {
                    r matches Ok(sig) && sig@ == dilithium3_signature(message@, sk)
                        && sig@.len() == DILITHIUM3_SIGNATURE_BYTES
                } else {
                    r matches Err(e) && e.is_invalid_key("Invalid secret key"@)
                },
            },
    {
        match &self.secret_key {
            None => Err(CryptoError::InvalidKeyFormat(String::from_str("No secret key available"))),
            Some(sk) => {
                if sk.len() != DILITHIUM3_SECRET_KEY_BYTES {
                    return Err(CryptoError::InvalidKeyFormat(String::from_str("Invalid secret key")));
                }
                Ok(dilithium3_sign(message, sk.as_slice()))
            },
        }
    }

    /// Verifies a detached signature: `Ok(true)` when it verifies,
    /// `VerificationFailed` when it does not, and `InvalidKeyFormat` when
    /// the key or the signature is malformed.
    pub fn verify(&self, message: &[u8], signature: &[u8]) -> (r: Result<bool, CryptoError>)
        ensures
            self.public_key@.len() != DILITHIUM3_PUBLIC_KEY_BYTES ==> (r matches Err(e)
                && e.is_invalid_key("Invalid public key"@)),
            self.public_key@.len() == DILITHIUM3_PUBLIC_KEY_BYTES && signature@.len()
                > DILITHIUM3_SIGNATURE_BYTES ==> (r matches Err(e) && e.is_invalid_key(
                "Invalid signature format"@,
            )),
            self.public_key@.len() == DILITHIUM3_PUBLIC_KEY_BYTES && signature@.len()
                <= DILITHIUM3_SIGNATURE_BYTES ==> if dilithium3_verifies(
                signature@,
                message@,
                self.public_key@,
            ) {
                r matches Ok(b) && b
            } else {
                r matches Err(CryptoError::VerificationFailed)
            },
            self.public_key@.len() == DILITHIUM3_PUBLIC_KEY_BYTES && signature@.len()
                <= DILITHIUM3_SIGNATURE_BYTES && (exists|sk: Seq<u8>|
                dilithium3_keypair_matches(self.public_key@, sk) && signature@
                    == #[trigger] dilithium3_signature(message@, sk)) ==> (r matches Ok(b) && b),
            r matches Ok(b) ==> b,
            (r is Ok) == (ml_dsa_verify_error(self.public_key@, message@, signature@) is None),
            r matches Err(e) ==> ml_dsa_verify_error(self.public_key@, message@, signature@) == Some(
                e.text(),
            ),
    {
        if self.public_key.len() != DILITHIUM3_PUBLIC_KEY_BYTES {
            return Err(CryptoError::InvalidKeyFormat(String::from_str("Invalid public key")));
        }
        if signature.len() > DILITHIUM3_SIGNATURE_BYTES {
            return Err(CryptoError::InvalidKeyFormat(String::from_str("Invalid signature format")));
        }
        if dilithium3_verify(signature, message, self.public_key.as_slice()) {
            Ok(true)
        } else {
            Err(CryptoError::VerificationFailed)
        }
    }

    /// Size of the public key in bytes.
    pub fn public_key_size(&self) -> (r: usize)
        ensures
            r == self.public_key@.len(),
    {
        self.public_key.len()
    }
}

} // verus!
