//! Hex digests with a choice of algorithm.

use vstd::prelude::*;
use crate::backend::{sha3_256, sha3_512, blake3_hash, sha3_256_digest, sha3_512_digest, blake3_digest};
use crate::core_types::{CryptoError, HashAlgorithm};
use crate::hex::{hex_of, encode_hex};

verus! {

/// The digest the algorithm gives for the data.
pub open spec fn digest_of(algorithm: HashAlgorithm, data: Seq<u8>) -> Seq<u8> {
    match algorithm {
        HashAlgorithm::Sha3_256 => sha3_256_digest(data),
        HashAlgorithm::Sha3_512 => sha3_512_digest(data),
        HashAlgorithm::Blake3 => blake3_digest(data),
    }
}

/// Hex digests.
pub struct Hasher;

impl Hasher {
    /// Lower-case hex digest of the data.
    pub fn hash_bytes(algorithm: &HashAlgorithm, data: &[u8]) -> (r: String)
        ensures
            r@ == hex_of(digest_of(*algorithm, data@)),
    {
        let d = match algorithm {
            HashAlgorithm::Sha3_256 => sha3_256(data),
            HashAlgorithm::Sha3_512 => sha3_512(data),
            HashAlgorithm::Blake3 => blake3_hash(data),
        };
        encode_hex(d.as_slice())
    }

    /// Checks the contents of a file against an expected hex digest:
    /// `Ok(true)` when they match, otherwise `HashMismatch` carrying the
    /// expected and the actual digest.
    pub fn verify_file_hash(
        algorithm: &HashAlgorithm,
        file_contents: &[u8],
        expected_hash: &str,
    ) -> (r: Result<bool, CryptoError>)
        ensures
            match r {
                Ok(b) => b && hex_of(digest_of(*algorithm, file_contents@)) == expected_hash@,
                Err(e) => {
                    &&& hex_of(digest_of(*algorithm, file_contents@)) != expected_hash@
                    &&& e matches CryptoError::HashMismatch { expected, actual }
                    &&& expected@ == expected_hash@
                    &&& actual@ == hex_of(digest_of(*algorithm, file_contents@))
                },
            },
    {
        let actual = Self::hash_bytes(algorithm, file_contents);
        let expected = String::from_str(expected_hash);
        if actual == expected {
            Ok(true)
        } else {
            Err(CryptoError::HashMismatch { expected, actual })
        }
    }
}

} // verus!
