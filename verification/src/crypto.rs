//! Hybrid digital signatures for update packages: every package is signed
//! with both CRYSTALS-Dilithium3 (post-quantum) and Ed25519 (classical)
//! over its SHA3-256 digest, and a signature is accepted only when both
//! parts verify.

use vstd::prelude::*;
use crate::backend::{
    sha3_256, sha3_256_digest, base64_encode, base64_decode, ed25519_generate_secret,
    ed25519_public_key, ed25519_sign, ed25519_verify, ed25519_point_check, ed25519_public_of, ed25519_point_decodes,
    ed25519_signature, ed25519_verifies, dilithium3_keypair, dilithium3_sign, dilithium3_verify,
    dilithium3_keypair_matches, dilithium3_signature, dilithium3_verifies, now_rfc3339,
    DILITHIUM3_PUBLIC_KEY_BYTES, DILITHIUM3_SECRET_KEY_BYTES, DILITHIUM3_SIGNATURE_BYTES,
};
use crate::base64_text::{base64_of, base64_decoded, lemma_base64_roundtrip};
use crate::hex::{hex_of, encode_hex, constant_time_eq_str};
use crate::text::copy_string;

verus! {

/// Dilithium3 key pair (raw key bytes).
#[derive(Clone, Debug)]
pub struct DilithiumKeyPair {
    pub public_key: Vec<u8>,
    pub secret_key: Vec<u8>,
}

/// Ed25519 key pair (raw key bytes).
#[derive(Clone, Debug)]
pub struct Ed25519KeyPair {
    pub signing_key: Vec<u8>,
    pub verifying_key: Vec<u8>,
}

/// A publisher's full hybrid key pair.
#[derive(Clone, Debug)]
pub struct HybridKeyPair {
    pub dilithium: DilithiumKeyPair,
    pub ed25519: Ed25519KeyPair,
    pub publisher_id: String,
}

/// A publisher's public key for distribution (keys in base64).
#[derive(Clone, Debug)]
pub struct HybridPublicKey {
    pub publisher_id: String,
    pub dilithium_public_key: String,
    pub ed25519_public_key: String,
}

/// A hybrid signature (signatures in base64).
#[derive(Clone, Debug)]
pub struct HybridSignature {
    pub dilithium_signature: String,
    pub ed25519_signature: String,
    pub publisher_id: String,
    pub signed_at: String,
}

/// Outcome of an integrity check.
#[derive(Clone, Debug)]
pub struct IntegrityResult {
    pub hash_valid: bool,
    pub dilithium_valid: bool,
    pub ed25519_valid: bool,
    pub overall_valid: bool,
    pub details: String,
}

/// The secret key material as it is written to a key file.
#[derive(Clone, Debug)]
pub struct ExportedKeyPair {
    pub publisher_id: String,
    pub dilithium_secret_key: String,
    pub dilithium_public_key: String,
    pub ed25519_secret_key: String,
}

/// Why a signature check or a key import could not be carried out.
#[derive(Clone, Copy, Debug, PartialEq, Eq, Structural)]
pub enum CryptoFailure {
    DilithiumSignatureEncoding,
    DilithiumPublicKeyEncoding,
    InvalidDilithiumPublicKey,
    InvalidDilithiumSignature,
    Ed25519SignatureEncoding,
    Ed25519PublicKeyEncoding,
    InvalidEd25519PublicKeyLength,
    InvalidEd25519PublicKey,
    InvalidEd25519SignatureLength,
    KeyEncoding,
    InvalidDilithiumSecretKey,
    InvalidEd25519KeyLength,
}

impl CryptoFailure {
    pub open spec fn message_text(self) -> Seq<char> {
        match self {
            CryptoFailure::DilithiumSignatureEncoding => "Failed to decode Dilithium signature"@,
            CryptoFailure::DilithiumPublicKeyEncoding => "Failed to decode Dilithium public key"@,
            CryptoFailure::InvalidDilithiumPublicKey => "Invalid Dilithium public key"@,
            CryptoFailure::InvalidDilithiumSignature => "Invalid Dilithium signature"@,
            CryptoFailure::Ed25519SignatureEncoding => "Failed to decode Ed25519 signature"@,
            CryptoFailure::Ed25519PublicKeyEncoding => "Failed to decode Ed25519 public key"@,
            CryptoFailure::InvalidEd25519PublicKeyLength => "Invalid Ed25519 public key length"@,
            CryptoFailure::InvalidEd25519PublicKey => "Invalid Ed25519 public key"@,
            CryptoFailure::InvalidEd25519SignatureLength => "Invalid Ed25519 signature length"@,
            CryptoFailure::KeyEncoding => "Invalid base64 in key file"@,
            CryptoFailure::InvalidDilithiumSecretKey => "Invalid Dilithium secret key"@,
            CryptoFailure::InvalidEd25519KeyLength => "Invalid Ed25519 key length"@,
        }
    }

    /// A human-readable description of the failure.
    pub fn message(&self) -> (r: String)
        ensures
            r@ == self.message_text(),
    {
        match self {
            CryptoFailure::DilithiumSignatureEncoding => String::from_str(
                "Failed to decode Dilithium signature",
            ),
            CryptoFailure::DilithiumPublicKeyEncoding => String::from_str(
                "Failed to decode Dilithium public key",
            ),
            CryptoFailure::InvalidDilithiumPublicKey => String::from_str(
                "Invalid Dilithium public key",
            ),
            CryptoFailure::InvalidDilithiumSignature => String::from_str(
                "Invalid Dilithium signature",
            ),
            CryptoFailure::Ed25519SignatureEncoding => String::from_str(
                "Failed to decode Ed25519 signature",
            ),
            CryptoFailure::Ed25519PublicKeyEncoding => String::from_str(
                "Failed to decode Ed25519 public key",
            ),
            CryptoFailure::InvalidEd25519PublicKeyLength => String::from_str(
                "Invalid Ed25519 public key length",
            ),
            CryptoFailure::InvalidEd25519PublicKey => String::from_str(
                "Invalid Ed25519 public key",
            ),
            CryptoFailure::InvalidEd25519SignatureLength => String::from_str(
                "Invalid Ed25519 signature length",
            ),
            CryptoFailure::KeyEncoding => String::from_str("Invalid base64 in key file"),
            CryptoFailure::InvalidDilithiumSecretKey => String::from_str(
                "Invalid Dilithium secret key",
            ),
            CryptoFailure::InvalidEd25519KeyLength => String::from_str(
                "Invalid Ed25519 key length",
            ),
        }
    }
}

// ---------------------------------------------------------------------
// Hashing
// ---------------------------------------------------------------------

/// SHA3-256 digest of the data.
pub fn compute_sha3_256(data: &[u8]) -> (r: Vec<u8>)
    ensures
        r@ == sha3_256_digest(data@),
        r@.len() == 32,
{
    sha3_256(data)
}

/// SHA3-256 digest of the data, as lower-case hex.
pub fn compute_sha3_256_hex(data: &[u8]) -> (r: String)
    ensures
        r@ == hex_of(sha3_256_digest(data@)),
{
    let h = sha3_256(data);
    encode_hex(h.as_slice())
}

/// The data's SHA3-256 hex digest equals `expected_hex` (compared in
/// constant time).
pub fn verify_sha3_256(data: &[u8], expected_hex: &str) -> (r: bool)
    ensures
        r == (hex_of(sha3_256_digest(data@)) == expected_hex@),
{
    let computed = compute_sha3_256_hex(data);
    constant_time_eq_str(computed.as_str(), expected_hex)
}

// ---------------------------------------------------------------------
// Verification
// ---------------------------------------------------------------------

/// What checking a hybrid signature over `data` gives, from the texts of
/// the two signatures and of the two public keys: the validity of the
/// Dilithium part and of the Ed25519 part, or why no check was possible.
pub open spec fn hybrid_outcome(
    data: Seq<u8>,
    dil_sig: Seq<char>,
    ed_sig: Seq<char>,
    dil_pk: Seq<char>,
    ed_pk: Seq<char>,
) -> Result<(bool, bool), CryptoFailure> {
    let h = sha3_256_digest(data);
    match base64_decoded(dil_sig) {
        None => Err(CryptoFailure::DilithiumSignatureEncoding),
        Some(ds) => match base64_decoded(dil_pk) {
            None => Err(CryptoFailure::DilithiumPublicKeyEncoding),
            Some(dp) => if dp.len() != DILITHIUM3_PUBLIC_KEY_BYTES {
                Err(CryptoFailure::InvalidDilithiumPublicKey)
            } else if ds.len() > DILITHIUM3_SIGNATURE_BYTES {
                Err(CryptoFailure::InvalidDilithiumSignature)
            } else {
                match base64_decoded(ed_sig) {
                    None => Err(CryptoFailure::Ed25519SignatureEncoding),
                    Some(es) => match base64_decoded(ed_pk) {
                        None => Err(CryptoFailure::Ed25519PublicKeyEncoding),
                        Some(ep) => if ep.len() != 32 {
                            Err(CryptoFailure::InvalidEd25519PublicKeyLength)
                        } else if !ed25519_point_decodes(ep) {
                            Err(CryptoFailure::InvalidEd25519PublicKey)
                        } else if es.len() != 64 {
                            Err(CryptoFailure::InvalidEd25519SignatureLength)
                        } else {
                            Ok((dilithium3_verifies(ds, h, dp), ed25519_verifies(ep, h, es)))
                        },
                    },
                }
            },
        },
    }
}

/// The Dilithium signature text is the encoding of a signature over
/// `data`'s digest made with the secret key generated together with the
/// public key whose encoding is `dil_pk`.
pub open spec fn dilithium_signed_by(data: Seq<u8>, dil_sig: Seq<char>, dil_pk: Seq<char>) -> bool {
    let h = sha3_256_digest(data);
    exists|dp: Seq<u8>, dsk: Seq<u8>|
        {
            &&& dp.len() == DILITHIUM3_PUBLIC_KEY_BYTES
            &&& #[trigger] dilithium3_keypair_matches(dp, dsk)
            &&& dilithium3_signature(h, dsk).len() <= DILITHIUM3_SIGNATURE_BYTES
            &&& dil_pk == base64_of(dp)
            &&& dil_sig == base64_of(dilithium3_signature(h, dsk))
        }
}

/// The Ed25519 signature text is the encoding of a signature over
/// `data`'s digest made with the secret key of the public key whose
/// encoding is `ed_pk`.
pub open spec fn ed25519_signed_by(data: Seq<u8>, ed_sig: Seq<char>, ed_pk: Seq<char>) -> bool {
    let h = sha3_256_digest(data);
    exists|esk: Seq<u8>|
        {
            &&& esk.len() == 32
            &&& #[trigger] ed25519_public_of(esk).len() == 32
            &&& ed25519_signature(esk, h).len() == 64
            &&& ed_pk == base64_of(ed25519_public_of(esk))
            &&& ed_sig == base64_of(ed25519_signature(esk, h))
        }
}

/// The signature texts are the encodings of signatures over `data`'s
/// digest made with secret keys generated together with the public keys
/// whose encodings are `dil_pk` and `ed_pk`.
pub open spec fn signed_by(
    data: Seq<u8>,
    dil_sig: Seq<char>,
    ed_sig: Seq<char>,
    dil_pk: Seq<char>,
    ed_pk: Seq<char>,
) -> bool {
    let h = sha3_256_digest(data);
    exists|dp: Seq<u8>, dsk: Seq<u8>, esk: Seq<u8>|
        {
            &&& dp.len() == DILITHIUM3_PUBLIC_KEY_BYTES
            &&& #[trigger] dilithium3_keypair_matches(dp, dsk)
            &&& dilithium3_signature(h, dsk).len() <= DILITHIUM3_SIGNATURE_BYTES
            &&& dil_pk == base64_of(dp)
            &&& dil_sig == base64_of(dilithium3_signature(h, dsk))
            &&& esk.len() == 32
            &&& #[trigger] ed25519_public_of(esk).len() == 32
            &&& ed25519_signature(esk, h).len() == 64
            &&& ed_pk == base64_of(ed25519_public_of(esk))
            &&& ed_sig == base64_of(ed25519_signature(esk, h))
        }
}

pub open spec fn mark(ok: bool) -> Seq<char> {
    if ok {
        "✓ VALID"@
    } else {
        "✗ INVALID"@
    }
}

pub open spec fn verdict(ok: bool) -> Seq<char> {
    if ok {
        "✓ PASSED"@
    } else {
        "✗ FAILED"@
    }
}

/// The summary line of a hybrid check.
pub open spec fn details_text(d: bool, e: bool) -> Seq<char> {
    "Dilithium3: "@ + mark(d) + " | Ed25519: "@ + mark(e) + " | Overall: "@ + verdict(d && e)
}

fn details_line(d: bool, e: bool) -> (r: String)
    ensures
        r@ == details_text(d, e),
{
    let mut r = String::from_str("Dilithium3: ");
    if d {
        r.append("✓ VALID");
    } else {
        r.append("✗ INVALID");
    }
    r.append(" | Ed25519: ");
    if e {
        r.append("✓ VALID");
    } else {
        r.append("✗ INVALID");
    }
    r.append(" | Overall: ");
    if d && e {
        r.append("✓ PASSED");
    } else {
        r.append("✗ FAILED");
    }
    r
}

/// Verifies a hybrid signature over `data`: both the Dilithium3 and the
/// Ed25519 signature of the data's SHA3-256 digest must verify for the
/// result to be valid overall.
pub fn verify_hybrid_signature(
    data: &[u8],
    signature: &HybridSignature,
    public_key: &HybridPublicKey,
) -> (r: Result<IntegrityResult, CryptoFailure>)
    ensures
        match r {
            Ok(ir) => {
                &&& hybrid_outcome(
                    data@,
                    signature.dilithium_signature@,
                    signature.ed25519_signature@,
                    public_key.dilithium_public_key@,
                    public_key.ed25519_public_key@,
                ) == Ok::<(bool, bool), CryptoFailure>((ir.dilithium_valid, ir.ed25519_valid))
                &&& ir.hash_valid
                &&& ir.overall_valid == (ir.dilithium_valid && ir.ed25519_valid)
                &&& ir.details@ == details_text(ir.dilithium_valid, ir.ed25519_valid)
            },
            Err(e) => hybrid_outcome(
                data@,
                signature.dilithium_signature@,
                signature.ed25519_signature@,
                public_key.dilithium_public_key@,
                public_key.ed25519_public_key@,
            ) == Err::<(bool, bool), CryptoFailure>(e),
        },
        signed_by(
            data@,
            signature.dilithium_signature@,
            signature.ed25519_signature@,
            public_key.dilithium_public_key@,
            public_key.ed25519_public_key@,
        ) ==> (r matches Ok(ir) && ir.dilithium_valid && ir.ed25519_valid && ir.overall_valid),
        dilithium_signed_by(data@, signature.dilithium_signature@, public_key.dilithium_public_key@) ==> (
        r matches Ok(ir) ==> ir.dilithium_valid),
        ed25519_signed_by(data@, signature.ed25519_signature@, public_key.ed25519_public_key@) ==> (
        r matches Ok(ir) ==> ir.ed25519_valid),
{
    let ghost sb = signed_by(
        data@,
        signature.dilithium_signature@,
        signature.ed25519_signature@,
        public_key.dilithium_public_key@,
        public_key.ed25519_public_key@,
    );
    let ghost h = sha3_256_digest(data@);
    let ghost mut wdp: Seq<u8> = Seq::empty();
    let ghost mut wdsk: Seq<u8> = Seq::empty();
    let ghost mut wesk: Seq<u8> = Seq::empty();
    proof {
        if sb {
            let (a, b, c) = choose|dp: Seq<u8>, dsk: Seq<u8>, esk: Seq<u8>|
                {
                    &&& dp.len() == DILITHIUM3_PUBLIC_KEY_BYTES
                    &&& #[trigger] dilithium3_keypair_matches(dp, dsk)
                    &&& dilithium3_signature(h, dsk).len() <= DILITHIUM3_SIGNATURE_BYTES
                    &&& public_key.dilithium_public_key@ == base64_of(dp)
                    &&& signature.dilithium_signature@ == base64_of(dilithium3_signature(h, dsk))
                    &&& esk.len() == 32
                    &&& #[trigger] ed25519_public_of(esk).len() == 32
                    &&& ed25519_signature(esk, h).len() == 64
                    &&& public_key.ed25519_public_key@ == base64_of(ed25519_public_of(esk))
                    &&& signature.ed25519_signature@ == base64_of(ed25519_signature(esk, h))
                };
            wdp = a;
            wdsk = b;
            wesk = c;
            lemma_base64_roundtrip(a);
            lemma_base64_roundtrip(dilithium3_signature(h, b));
            lemma_base64_roundtrip(ed25519_public_of(c));
            lemma_base64_roundtrip(ed25519_signature(c, h));
        }
    }
    let hash = sha3_256(data);
    let dil_sig = match base64_decode(signature.dilithium_signature.as_str()) {
        Ok(v) => v,
        Err(_) => return Err(CryptoFailure::DilithiumSignatureEncoding),
    };
    let dil_pk = match base64_decode(public_key.dilithium_public_key.as_str()) {
        Ok(v) => v,
        Err(_) => return Err(CryptoFailure::DilithiumPublicKeyEncoding),
    };
    if dil_pk.len() != DILITHIUM3_PUBLIC_KEY_BYTES {
        return Err(CryptoFailure::InvalidDilithiumPublicKey);
    }
    if dil_sig.len() > DILITHIUM3_SIGNATURE_BYTES {
        return Err(CryptoFailure::InvalidDilithiumSignature);
    }
    proof {
        if sb {
            assert(dilithium3_keypair_matches(dil_pk@, wdsk) && dil_sig@ == dilithium3_signature(
                hash@,
                wdsk,
            ));
        }
    }
    proof {
        if dilithium_signed_by(data@, signature.dilithium_signature@, public_key.dilithium_public_key@) {
            let (a, b) = choose|dp: Seq<u8>, dsk: Seq<u8>|
                {
                    &&& dp.len() == DILITHIUM3_PUBLIC_KEY_BYTES
                    &&& #[trigger] dilithium3_keypair_matches(dp, dsk)
                    &&& dilithium3_signature(h, dsk).len() <= DILITHIUM3_SIGNATURE_BYTES
                    &&& public_key.dilithium_public_key@ == base64_of(dp)
                    &&& signature.dilithium_signature@ == base64_of(dilithium3_signature(h, dsk))
                };
            lemma_base64_roundtrip(a);
            lemma_base64_roundtrip(dilithium3_signature(h, b));
            assert(dilithium3_keypair_matches(dil_pk@, b) && dil_sig@ == dilithium3_signature(hash@, b));
        }
    }
    let dilithium_valid = dilithium3_verify(dil_sig.as_slice(), hash.as_slice(), dil_pk.as_slice());
    let ed_sig = match base64_decode(signature.ed25519_signature.as_str()) {
        Ok(v) => v,
        Err(_) => return Err(CryptoFailure::Ed25519SignatureEncoding),
    };
    let ed_pk = match base64_decode(public_key.ed25519_public_key.as_str()) {
        Ok(v) => v,
        Err(_) => return Err(CryptoFailure::Ed25519PublicKeyEncoding),
    };
    if ed_pk.len() != 32 {
        return Err(CryptoFailure::InvalidEd25519PublicKeyLength);
    }
    proof {
        if sb {
            assert(wesk.len() == 32 && ed_pk@ == ed25519_public_of(wesk));
            assert(ed_sig@ == ed25519_signature(wesk, hash@));
        }
    }
    if !ed25519_point_check(ed_pk.as_slice()) {
        return Err(CryptoFailure::InvalidEd25519PublicKey);
    }
    if ed_sig.len() != 64 {
        return Err(CryptoFailure::InvalidEd25519SignatureLength);
    }
    proof {
        if ed25519_signed_by(data@, signature.ed25519_signature@, public_key.ed25519_public_key@) {
            let c = choose|esk: Seq<u8>|
                {
                    &&& esk.len() == 32
                    &&& #[trigger] ed25519_public_of(esk).len() == 32
                    &&& ed25519_signature(esk, h).len() == 64
                    &&& public_key.ed25519_public_key@ == base64_of(ed25519_public_of(esk))
                    &&& signature.ed25519_signature@ == base64_of(ed25519_signature(esk, h))
                };
            lemma_base64_roundtrip(ed25519_public_of(c));
            lemma_base64_roundtrip(ed25519_signature(c, h));
            assert(c.len() == 32 && ed_pk@ == ed25519_public_of(c));
            assert(ed_sig@ == ed25519_signature(c, hash@));
        }
    }
    let ed25519_valid = ed25519_verify(ed_pk.as_slice(), hash.as_slice(), ed_sig.as_slice());
    let overall_valid = dilithium_valid && ed25519_valid;
    let details = details_line(dilithium_valid, ed25519_valid);
    Ok(IntegrityResult {
        hash_valid: true,
        dilithium_valid,
        ed25519_valid,
        overall_valid,
        details,
    })
}

proof fn lemma_signed_by_intro(data: Seq<u8>, dp: Seq<u8>, dsk: Seq<u8>, esk: Seq<u8>)
    requires
        dp.len() == DILITHIUM3_PUBLIC_KEY_BYTES,
        dilithium3_keypair_matches(dp, dsk),
        dilithium3_signature(sha3_256_digest(data), dsk).len() <= DILITHIUM3_SIGNATURE_BYTES,
        esk.len() == 32,
        ed25519_public_of(esk).len() == 32,
        ed25519_signature(esk, sha3_256_digest(data)).len() == 64,
    ensures
        signed_by(
            data,
            base64_of(dilithium3_signature(sha3_256_digest(data), dsk)),
            base64_of(ed25519_signature(esk, sha3_256_digest(data))),
            base64_of(dp),
            base64_of(ed25519_public_of(esk)),
        ),
{
}

// ---------------------------------------------------------------------
// Key pairs
// ---------------------------------------------------------------------

/// What importing key material from its three base64 texts gives: the
/// Dilithium public key, the Dilithium secret key and the Ed25519 secret
/// key, or why the material is refused.
pub open spec fn import_outcome(dil_sk: Seq<char>, dil_pk: Seq<char>, ed_sk: Seq<char>) -> Result<
    (Seq<u8>, Seq<u8>, Seq<u8>),
    CryptoFailure,
> {
    match (base64_decoded(dil_sk), base64_decoded(dil_pk), base64_decoded(ed_sk)) {
        (Some(dsk), Some(dpk), Some(esk)) => if dsk.len() != DILITHIUM3_SECRET_KEY_BYTES {
            Err(CryptoFailure::InvalidDilithiumSecretKey)
        } else if dpk.len() != DILITHIUM3_PUBLIC_KEY_BYTES {
            Err(CryptoFailure::InvalidDilithiumPublicKey)
        } else if esk.len() != 32 {
            Err(CryptoFailure::InvalidEd25519KeyLength)
        } else {
            Ok((dpk, dsk, esk))
        },
        _ => Err(CryptoFailure::KeyEncoding),
    }
}

impl HybridKeyPair {
    /// Key lengths are those of Dilithium3 and Ed25519, and the Ed25519
    /// verifying key belongs to the signing key.
    pub open spec fn wf(&self) -> bool {
        &&& self.dilithium.public_key@.len() == DILITHIUM3_PUBLIC_KEY_BYTES
        &&& self.dilithium.secret_key@.len() == DILITHIUM3_SECRET_KEY_BYTES
        &&& self.ed25519.signing_key@.len() == 32
        &&& self.ed25519.verifying_key@ == ed25519_public_of(self.ed25519.signing_key@)
        &&& self.ed25519.verifying_key@.len() == 32
    }

    /// The Dilithium3 keys were generated together.
    pub open spec fn keys_match(&self) -> bool {
        dilithium3_keypair_matches(self.dilithium.public_key@, self.dilithium.secret_key@)
    }

    /// Generates a fresh hybrid key pair for a publisher.
    pub fn generate(publisher_id: &str) -> (r: Result<Self, CryptoFailure>)
        ensures
            r matches Ok(kp) && kp.wf() && kp.keys_match() && kp.publisher_id@ == publisher_id@,
    {
        let (dil_pk, dil_sk) = dilithium3_keypair();
        let ed_sk = ed25519_generate_secret();
        let ed_pk = ed25519_public_key(ed_sk.as_slice());
        Ok(HybridKeyPair {
            dilithium: DilithiumKeyPair { public_key: dil_pk, secret_key: dil_sk },
            ed25519: Ed25519KeyPair { signing_key: ed_sk, verifying_key: ed_pk },
            publisher_id: String::from_str(publisher_id),
        })
    }

    /// The public half, keys in base64, for distribution.
    pub fn public_key(&self) -> (r: HybridPublicKey)
        ensures
            r.publisher_id@ == self.publisher_id@,
            r.dilithium_public_key@ == base64_of(self.dilithium.public_key@),
            r.ed25519_public_key@ == base64_of(self.ed25519.verifying_key@),
    {
        HybridPublicKey {
            publisher_id: copy_string(&self.publisher_id),
            dilithium_public_key: base64_encode(self.dilithium.public_key.as_slice()),
            ed25519_public_key: base64_encode(self.ed25519.verifying_key.as_slice()),
        }
    }

    /// Signs the SHA3-256 digest of `data` with both algorithms, stamping
    /// the signature with the given time.
    pub fn sign_at(&self, data: &[u8], signed_at: String) -> (r: HybridSignature)
        requires
            self.wf(),
        ensures
            r.dilithium_signature@ == base64_of(
                dilithium3_signature(sha3_256_digest(data@), self.dilithium.secret_key@),
            ),
            r.ed25519_signature@ == base64_of(
                ed25519_signature(self.ed25519.signing_key@, sha3_256_digest(data@)),
            ),
            r.publisher_id@ == self.publisher_id@,
            r.signed_at@ == signed_at@,
            self.keys_match() ==> signed_by(
                data@,
                r.dilithium_signature@,
                r.ed25519_signature@,
                base64_of(self.dilithium.public_key@),
                base64_of(self.ed25519.verifying_key@),
            ),
    {
        let hash = sha3_256(data);
        let dil_sig = dilithium3_sign(hash.as_slice(), self.dilithium.secret_key.as_slice());
        let ed_sig = ed25519_sign(self.ed25519.signing_key.as_slice(), hash.as_slice());
        let r = HybridSignature {
            dilithium_signature: base64_encode(dil_sig.as_slice()),
            ed25519_signature: base64_encode(ed_sig.as_slice()),
            publisher_id: copy_string(&self.publisher_id),
            signed_at,
        };
        proof {
            if self.keys_match() {
                lemma_signed_by_intro(
                    data@,
                    self.dilithium.public_key@,
                    self.dilithium.secret_key@,
                    self.ed25519.signing_key@,
                );
            }
        }
        r
    }

    /// Signs `data` with both algorithms, stamped with the current time.
    pub fn sign(&self, data: &[u8]) -> (r: Result<HybridSignature, CryptoFailure>)
        requires
            self.wf(),
        ensures
            r matches Ok(sig) && {
                &&& sig.dilithium_signature@ == base64_of(
                    dilithium3_signature(sha3_256_digest(data@), self.dilithium.secret_key@),
                )
                &&& sig.ed25519_signature@ == base64_of(
                    ed25519_signature(self.ed25519.signing_key@, sha3_256_digest(data@)),
                )
                &&& sig.publisher_id@ == self.publisher_id@
                &&& self.keys_match() ==> signed_by(
                    data@,
                    sig.dilithium_signature@,
                    sig.ed25519_signature@,
                    base64_of(self.dilithium.public_key@),
                    base64_of(self.ed25519.verifying_key@),
                )
            },
    {
        let now = now_rfc3339();
        Ok(self.sign_at(data, now))
    }

    /// The secret key material in the form written to a key file.
    pub fn export_secret_keys(&self) -> (r: ExportedKeyPair)
        ensures
            r.publisher_id@ == self.publisher_id@,
            r.dilithium_secret_key@ == base64_of(self.dilithium.secret_key@),
            r.dilithium_public_key@ == base64_of(self.dilithium.public_key@),
            r.ed25519_secret_key@ == base64_of(self.ed25519.signing_key@),
    {
        ExportedKeyPair {
            publisher_id: copy_string(&self.publisher_id),
            dilithium_secret_key: base64_encode(self.dilithium.secret_key.as_slice()),
            dilithium_public_key: base64_encode(self.dilithium.public_key.as_slice()),
            ed25519_secret_key: base64_encode(self.ed25519.signing_key.as_slice()),
        }
    }

    /// Rebuilds a key pair from exported key material; the Ed25519
    /// verifying key is derived from the secret key.
    pub fn import_secret_keys(e: &ExportedKeyPair) -> (r: Result<Self, CryptoFailure>)
        ensures
            match r {
                Ok(kp) => {
                    &&& import_outcome(
                        e.dilithium_secret_key@,
                        e.dilithium_public_key@,
                        e.ed25519_secret_key@,
                    ) == Ok::<(Seq<u8>, Seq<u8>, Seq<u8>), CryptoFailure>(
                        (kp.dilithium.public_key@, kp.dilithium.secret_key@, kp.ed25519.signing_key@),
                    )
                    &&& kp.wf()
                    &&& kp.publisher_id@ == e.publisher_id@
                },
                Err(f) => import_outcome(
                    e.dilithium_secret_key@,
                    e.dilithium_public_key@,
                    e.ed25519_secret_key@,
                ) == Err::<(Seq<u8>, Seq<u8>, Seq<u8>), CryptoFailure>(f),
            },
    {
        let dil_sk = match base64_decode(e.dilithium_secret_key.as_str()) {
            Ok(v) => v,
            Err(_) => return Err(CryptoFailure::KeyEncoding),
        };
        let dil_pk = match base64_decode(e.dilithium_public_key.as_str()) {
            Ok(v) => v,
            Err(_) => return Err(CryptoFailure::KeyEncoding),
        };
        let ed_sk = match base64_decode(e.ed25519_secret_key.as_str()) {
            Ok(v) => v,
            Err(_) => return Err(CryptoFailure::KeyEncoding),
        };
        if dil_sk.len() != DILITHIUM3_SECRET_KEY_BYTES {
            return Err(CryptoFailure::InvalidDilithiumSecretKey);
        }
        if dil_pk.len() != DILITHIUM3_PUBLIC_KEY_BYTES {
            return Err(CryptoFailure::InvalidDilithiumPublicKey);
        }
        if ed_sk.len() != 32 {
            return Err(CryptoFailure::InvalidEd25519KeyLength);
        }
        let ed_pk = ed25519_public_key(ed_sk.as_slice());
        Ok(HybridKeyPair {
            dilithium: DilithiumKeyPair { public_key: dil_pk, secret_key: dil_sk },
            ed25519: Ed25519KeyPair { signing_key: ed_sk, verifying_key: ed_pk },
            publisher_id: copy_string(&e.publisher_id),
        })
    }
}

/// Exporting a well-formed key pair and importing it again gives back the
/// same key bytes; the imported pair therefore signs exactly as the
/// exported one does.
pub proof fn lemma_export_import_roundtrip(kp: HybridKeyPair)
    requires
        kp.wf(),
    ensures
        import_outcome(
            base64_of(kp.dilithium.secret_key@),
            base64_of(kp.dilithium.public_key@),
            base64_of(kp.ed25519.signing_key@),
        ) == Ok::<(Seq<u8>, Seq<u8>, Seq<u8>), CryptoFailure>(
            (kp.dilithium.public_key@, kp.dilithium.secret_key@, kp.ed25519.signing_key@),
        ),
{
    lemma_base64_roundtrip(kp.dilithium.secret_key@);
    lemma_base64_roundtrip(kp.dilithium.public_key@);
    lemma_base64_roundtrip(kp.ed25519.signing_key@);
}


} // verus!
