//! Types shared by the signing and verification code: errors, the
//! supported algorithms and the signed update manifest.

use vstd::prelude::*;

verus! {

/// Failures of the cryptographic operations.
#[derive(Clone, Debug)]
pub enum CryptoError {
    VerificationFailed,
    InvalidKeyFormat(String),
    KeyGenFailed(String),
    SerializationError(String),
    HashMismatch { expected: String, actual: String },
    UnsupportedAlgorithm(String),
    ExpiredSignature { signed_at: String, expired_at: String },
}

/// Supported signature algorithms.
#[derive(Clone, Copy, Debug, PartialEq, Eq, Structural)]
pub enum SignatureAlgorithm {
    /// Classical Ed25519.
    Ed25519,
    /// Post-quantum ML-DSA (Dilithium3).
    MlDsa65,
    /// Ed25519 and ML-DSA-65 together; both must verify.
    HybridEd25519MlDsa65,
}

/// Supported hash algorithms.
#[derive(Clone, Copy, Debug, PartialEq, Eq, Structural)]
pub enum HashAlgorithm {
    Sha3_256,
    Sha3_512,
    Blake3,
}

/// A manifest together with its signatures.
#[derive(Clone, Debug)]
pub struct SignedManifest {
    pub manifest: UpdateManifest,
    pub signatures: Vec<ManifestSignature>,
}

/// Describes an available update; times are seconds since the Unix epoch.
#[derive(Clone, Debug)]
pub struct UpdateManifest {
    pub package_name: String,
    pub version: String,
    pub previous_version: Option<String>,
    pub timestamp: i64,
    pub expires: Option<i64>,
    pub files: Vec<FileEntry>,
    pub minimum_client_version: Option<String>,
    pub release_notes: Option<String>,
    pub publisher_id: String,
}

/// A file of an update package.
#[derive(Clone, Debug)]
pub struct FileEntry {
    pub path: String,
    pub size: u64,
    pub hash_algorithm: HashAlgorithm,
    pub hash: String,
    pub download_url: String,
}

/// A signature over a manifest; `signature` is base64, `signed_at` is
/// seconds since the Unix epoch.
#[derive(Clone, Debug)]
pub struct ManifestSignature {
    pub algorithm: SignatureAlgorithm,
    pub publisher_id: String,
    pub key_id: String,
    pub signature: String,
    pub signed_at: i64,
}

/// The text of an `InvalidKeyFormat` error with this message.
pub open spec fn key_format_text(m: Seq<char>) -> Seq<char> {
    "Invalid key format: "@ + m
}

/// The text of a `SerializationError` with this message.
pub open spec fn serialization_text(m: Seq<char>) -> Seq<char> {
    "Serialization error: "@ + m
}

/// The text of `VerificationFailed`.
pub open spec fn verification_failed_text() -> Seq<char> {
    "Signature verification failed"@
}

impl CryptoError {
    /// The error is `InvalidKeyFormat` with the given message.
    pub open spec fn is_invalid_key(self, msg: Seq<char>) -> bool {
        self matches CryptoError::InvalidKeyFormat(m) && m@ == msg
    }

    /// The text the error displays.
    pub open spec fn text(self) -> Seq<char> {
        match self {
            CryptoError::VerificationFailed => verification_failed_text(),
            CryptoError::InvalidKeyFormat(m) => key_format_text(m@),
            CryptoError::KeyGenFailed(m) => "Key generation failed: "@ + m@,
            CryptoError::SerializationError(m) => serialization_text(m@),
            CryptoError::HashMismatch { expected, actual } => "Hash mismatch: expected "@ + expected@
                + ", got "@ + actual@,
            CryptoError::UnsupportedAlgorithm(m) => "Unsupported algorithm: "@ + m@,
            CryptoError::ExpiredSignature { signed_at, expired_at } => "Expired signature: signed at "@
                + signed_at@ + ", expired at "@ + expired_at@,
        }
    }

    /// The text the error displays.
    pub fn to_string(&self) -> (r: String)
        ensures
            r@ == self.text(),
    {
        match self {
            CryptoError::VerificationFailed => String::from_str("Signature verification failed"),
            CryptoError::InvalidKeyFormat(m) => prefixed("Invalid key format: ", m.as_str()),
            CryptoError::KeyGenFailed(m) => prefixed("Key generation failed: ", m.as_str()),
            CryptoError::SerializationError(m) => prefixed("Serialization error: ", m.as_str()),
            CryptoError::HashMismatch { expected, actual } => {
                let mut r = prefixed("Hash mismatch: expected ", expected.as_str());
                r.append(", got ");
                r.append(actual.as_str());
                r
            },
            CryptoError::UnsupportedAlgorithm(m) => prefixed("Unsupported algorithm: ", m.as_str()),
            CryptoError::ExpiredSignature { signed_at, expired_at } => {
                let mut r = prefixed("Expired signature: signed at ", signed_at.as_str());
                r.append(", expired at ");
                r.append(expired_at.as_str());
                r
            },
        }
    }
}

/// `a` followed by `b`.
fn prefixed(a: &str, b: &str) -> (r: String)
    ensures
        r@ == a@ + b@,
{
    let mut r = String::from_str(a);
    r.append(b);
    r
}

impl SignatureAlgorithm {
    /// The variant's name as `Debug` prints it.
    pub open spec fn name_text(self) -> Seq<char> {
        match self {
            SignatureAlgorithm::Ed25519 => "Ed25519"@,
            SignatureAlgorithm::MlDsa65 => "MlDsa65"@,
            SignatureAlgorithm::HybridEd25519MlDsa65 => "HybridEd25519MlDsa65"@,
        }
    }

    /// The variant's name as `Debug` prints it.
    pub fn name(&self) -> (r: String)
        ensures
            r@ == self.name_text(),
    {
        match self {
            SignatureAlgorithm::Ed25519 => String::from_str("Ed25519"),
            SignatureAlgorithm::MlDsa65 => String::from_str("MlDsa65"),
            SignatureAlgorithm::HybridEd25519MlDsa65 => String::from_str("HybridEd25519MlDsa65"),
        }
    }
}

impl HashAlgorithm {
    /// The variant's name as `Debug` prints it.
    pub open spec fn name_text(self) -> Seq<char> {
        match self {
            HashAlgorithm::Sha3_256 => "Sha3_256"@,
            HashAlgorithm::Sha3_512 => "Sha3_512"@,
            HashAlgorithm::Blake3 => "Blake3"@,
        }
    }

    /// The variant's name as `Debug` prints it.
    pub fn name(&self) -> (r: String)
        ensures
            r@ == self.name_text(),
    {
        match self {
            HashAlgorithm::Sha3_256 => String::from_str("Sha3_256"),
            HashAlgorithm::Sha3_512 => String::from_str("Sha3_512"),
            HashAlgorithm::Blake3 => String::from_str("Blake3"),
        }
    }
}

} // verus!
