//! Hybrid Ed25519 + ML-DSA-65 signatures over domain-separated messages:
//! both parts must verify.

use vstd::prelude::*;
use crate::backend::{
    ed25519_point_decodes, ed25519_verifies, dilithium3_verifies,
    ed25519_public_of, ed25519_signature, dilithium3_keypair_matches, dilithium3_signature,
    DILITHIUM3_PUBLIC_KEY_BYTES, DILITHIUM3_SIGNATURE_BYTES,
};
use crate::classical::{Ed25519KeyPair, ed25519_verify_error};
use crate::core_types::{CryptoError, SignatureAlgorithm, key_format_text};
use crate::pq::{MlDsaKeyPair, ml_dsa_verify_error};
use crate::text::{char_bytes, char_bytes_of, concat_str, substring};
use crate::version::{decimal_of, push_decimal};
use vstd::utf8::encode_utf8;

verus! {

/// The bytes as a JSON list of decimal numbers, without the brackets.
pub open spec fn byte_list_text(b: Seq<u8>) -> Seq<char>
    decreases b.len(),
{
    if b.len() == 0 {
        Seq::<char>::empty()
    } else if b.len() == 1 {
        decimal_of(b[0] as nat)
    } else {
        byte_list_text(b.drop_last()) + ","@ + decimal_of(b.last() as nat)
    }
}

/// The compact JSON text of a hybrid signature, as `serde_json` writes it
/// for the derived serialisation: byte vectors as lists of numbers and the
/// algorithm as its variant name.
pub open spec fn hybrid_signature_json_text(classical: Seq<u8>, pq: Seq<u8>, a: SignatureAlgorithm) -> Seq<char> {
    "{\"classical_signature\":["@ + byte_list_text(classical) + "],\"pq_signature\":["@ + byte_list_text(pq)
        + "],\"algorithm\":\""@ + a.name_text() + "\"}"@
}

/// The UTF-8 bytes of that JSON text.
pub open spec fn hybrid_signature_json(classical: Seq<u8>, pq: Seq<u8>, a: SignatureAlgorithm) -> Seq<u8> {
    encode_utf8(hybrid_signature_json_text(classical, pq, a))
}

fn push_byte_list(s: &mut String, b: &[u8])
    ensures
        final(s)@ == old(s)@ + byte_list_text(b@),
{
    let mut i: usize = 0;
    while i < b.len()
        invariant
            i <= b@.len(),
            s@ == old(s)@ + byte_list_text(b@.take(i as int)),
        decreases b.len() - i,
    {
        let ghost before = s@;
        if i > 0 {
            s.push(',');
        }
        push_decimal(s, b[i] as u32);
        proof {
            reveal_strlit(",");
            let t = b@.take(i + 1);
            assert(t.drop_last() =~= b@.take(i as int));
            if i == 0 {
                assert(b@.take(0) =~= Seq::<u8>::empty());
                assert(s@ =~= old(s)@ + byte_list_text(t));
            } else {
                assert(s@ =~= old(s)@ + byte_list_text(t));
            }
        }
        i = i + 1;
    }
    assert(b@.take(b@.len() as int) =~= b@);
}

/// A hybrid signature: both parts must verify.
#[derive(Clone, Debug)]
pub struct HybridSignature {
    pub classical_signature: Vec<u8>,
    pub pq_signature: Vec<u8>,
    pub algorithm: SignatureAlgorithm,
}

/// A classical and a post-quantum key pair used together.
#[derive(Clone, Debug)]
pub struct HybridKeyPair {
    pub ed25519: Ed25519KeyPair,
    pub ml_dsa: MlDsaKeyPair,
    pub key_id: String,
}

/// `domain`, a zero byte, then `message`.
pub open spec fn domain_separated(domain: Seq<u8>, message: Seq<u8>) -> Seq<u8> {
    domain + seq![0u8] + message
}

pub open spec fn classical_domain() -> Seq<u8> {
    char_bytes("classical-ed25519"@)
}

pub open spec fn pq_domain() -> Seq<u8> {
    char_bytes("post-quantum-ml-dsa-65"@)
}

/// The message the Ed25519 part signs.
pub open spec fn classical_message(message: Seq<u8>) -> Seq<u8> {
    domain_separated(classical_domain(), message)
}

/// The message the ML-DSA part signs.
pub open spec fn pq_message(message: Seq<u8>) -> Seq<u8> {
    domain_separated(pq_domain(), message)
}

/// The text of the error a hybrid verification gives, or `None` when both
/// parts verify: the Ed25519 part is checked first.
pub open spec fn hybrid_verify_error(
    ed25519_pk: Seq<u8>,
    ml_dsa_pk: Seq<u8>,
    message: Seq<u8>,
    signature: HybridSignature,
) -> Option<Seq<char>> {
    match ed25519_verify_error(ed25519_pk, classical_message(message), signature.classical_signature@) {
        Some(t) => Some(t),
        None => ml_dsa_verify_error(ml_dsa_pk, pq_message(message), signature.pq_signature@),
    }
}

/// A hybrid signature is accepted exactly when both parts verify: the
/// Ed25519 signature over the classical message under a well-formed
/// Ed25519 key, and the ML-DSA-65 signature over the post-quantum message
/// under a well-formed ML-DSA key. A signature with either part altered so
/// that it no longer verifies is refused.
pub proof fn lemma_hybrid_needs_both_parts(
    ed25519_pk: Seq<u8>,
    ml_dsa_pk: Seq<u8>,
    message: Seq<u8>,
    signature: HybridSignature,
)
    ensures
        hybrid_verify_error(ed25519_pk, ml_dsa_pk, message, signature) is None <==> ({
            &&& ed25519_pk.len() == 32
            &&& ed25519_point_decodes(ed25519_pk)
            &&& signature.classical_signature@.len() == 64
            &&& ed25519_verifies(ed25519_pk, classical_message(message), signature.classical_signature@)
            &&& ml_dsa_pk.len() == DILITHIUM3_PUBLIC_KEY_BYTES
            &&& signature.pq_signature@.len() <= DILITHIUM3_SIGNATURE_BYTES
            &&& dilithium3_verifies(signature.pq_signature@, pq_message(message), ml_dsa_pk)
        }),
        !dilithium3_verifies(signature.pq_signature@, pq_message(message), ml_dsa_pk) ==> hybrid_verify_error(
            ed25519_pk,
            ml_dsa_pk,
            message,
            signature,
        ) is Some,
        !ed25519_verifies(ed25519_pk, classical_message(message), signature.classical_signature@)
            ==> hybrid_verify_error(ed25519_pk, ml_dsa_pk, message, signature) is Some,
{
}

/// The byte string holds no zero byte.
pub open spec fn zero_free(d: Seq<u8>) -> bool {
    forall|i: int| 0 <= i < d.len() ==> d[i] != 0u8
}

/// Domain separation is unambiguous: for domains without zero bytes, the
/// separated message determines both the domain and the message, so a
/// signature over one domain's message is never one over another's.
pub proof fn lemma_domain_separation(d1: Seq<u8>, m1: Seq<u8>, d2: Seq<u8>, m2: Seq<u8>)
    requires
        zero_free(d1),
        zero_free(d2),
        domain_separated(d1, m1) == domain_separated(d2, m2),
    ensures
        d1 == d2,
        m1 == m2,
{
    let s = domain_separated(d1, m1);
    if d1.len() < d2.len() {
        assert(s[d1.len() as int] == 0u8);
        assert(s[d1.len() as int] == d2[d1.len() as int]);
    } else if d2.len() < d1.len() {
        assert(s[d2.len() as int] == 0u8);
        assert(s[d2.len() as int] == d1[d2.len() as int]);
    }
    assert(d1.len() == d2.len());
    assert(d1 =~= s.take(d1.len() as int));
    assert(d2 =~= s.take(d2.len() as int));
    assert(m1 =~= s.skip(d1.len() + 1 as int));
    assert(m2 =~= s.skip(d2.len() + 1 as int));
}

/// The two domains are zero-free and differ.
pub proof fn lemma_domains_distinct()
    ensures
        zero_free(classical_domain()),
        zero_free(pq_domain()),
        classical_domain() != pq_domain(),
{
    reveal_strlit("classical-ed25519");
    reveal_strlit("post-quantum-ml-dsa-65");
    assert(classical_domain().len() != pq_domain().len());
}

/// Little-endian bytes of `n` in `k` bytes.
pub open spec fn le_bytes(n: nat, k: nat) -> Seq<u8>
    decreases k,
{
    if k == 0 {
        Seq::<u8>::empty()
    } else {
        seq![(n % 256) as u8] + le_bytes(n / 256, (k - 1) as nat)
    }
}

pub open spec fn algorithm_index(a: SignatureAlgorithm) -> nat {
    match a {
        SignatureAlgorithm::Ed25519 => 0,
        SignatureAlgorithm::MlDsa65 => 1,
        SignatureAlgorithm::HybridEd25519MlDsa65 => 2,
    }
}

/// The bincode (fixed-width, little-endian) encoding of a hybrid
/// signature: each byte vector as a 64-bit length and its bytes, then the
/// algorithm as a 32-bit variant index.
pub open spec fn hybrid_signature_bytes(classical: Seq<u8>, pq: Seq<u8>, a: SignatureAlgorithm) -> Seq<u8> {
    le_bytes(classical.len(), 8) + classical + le_bytes(pq.len(), 8) + pq + le_bytes(
        algorithm_index(a),
        4,
    )
}

fn push_le(out: &mut Vec<u8>, n: u64, k: usize)
    requires
        k <= 8,
    ensures
        final(out)@ == old(out)@ + le_bytes(n as nat, k as nat),
    decreases k,
{
    if k > 0 {
        let b = (n % 256) as u8;
        out.push(b);
        push_le(out, n / 256, k - 1);
        assert(old(out)@ + le_bytes(n as nat, k as nat) =~= old(out)@.push(b) + le_bytes(
            (n / 256) as nat,
            (k - 1) as nat,
        ));
    } else {
        assert(old(out)@ + le_bytes(n as nat, k as nat) =~= old(out)@);
    }
}

fn push_all(out: &mut Vec<u8>, data: &[u8])
    ensures
        final(out)@ == old(out)@ + data@,
{
    let mut i: usize = 0;
    while i < data.len()
        invariant
            i <= data.len(),
            out@ == old(out)@ + data@.take(i as int),
        decreases data.len() - i,
    {
        out.push(data[i]);
        i = i + 1;
        assert(out@ =~= old(out)@ + data@.take(i as int));
    }
    assert(data@.take(data.len() as int) =~= data@);
}

impl HybridSignature {
    /// The compact JSON form of the signature, the form a manifest's
    /// hybrid signature is stored in and read back from.
    pub fn to_json(&self) -> (r: Vec<u8>)
        ensures
            r@ == hybrid_signature_json(self.classical_signature@, self.pq_signature@, self.algorithm),
    {
        let mut t = String::from_str("{\"classical_signature\":[");
        push_byte_list(&mut t, self.classical_signature.as_slice());
        t.append("],\"pq_signature\":[");
        push_byte_list(&mut t, self.pq_signature.as_slice());
        t.append("],\"algorithm\":\"");
        let name = self.algorithm.name();
        t.append(name.as_str());
        t.append("\"}");
        assert(t@ == hybrid_signature_json_text(self.classical_signature@, self.pq_signature@, self.algorithm));
        t.as_str().as_bytes_vec()
    }

    /// The bincode encoding of the signature.
    pub fn to_bytes(&self) -> (r: Vec<u8>)
        ensures
            r@ == hybrid_signature_bytes(
                self.classical_signature@,
                self.pq_signature@,
                self.algorithm,
            ),
    {
        let mut out: Vec<u8> = Vec::new();
        push_le(&mut out, self.classical_signature.len() as u64, 8);
        push_all(&mut out, self.classical_signature.as_slice());
        push_le(&mut out, self.pq_signature.len() as u64, 8);
        push_all(&mut out, self.pq_signature.as_slice());
        let idx: u64 = match self.algorithm {
            SignatureAlgorithm::Ed25519 => 0,
            SignatureAlgorithm::MlDsa65 => 1,
            SignatureAlgorithm::HybridEd25519MlDsa65 => 2,
        };
        push_le(&mut out, idx, 4);
        assert(out@ =~= hybrid_signature_bytes(
            self.classical_signature@,
            self.pq_signature@,
            self.algorithm,
        ));
        out
    }
}

impl HybridKeyPair {
    /// The key pair id: `hybrid-`, the first 8 characters of the Ed25519
    /// key id, `-`, and the 8 characters of the ML-DSA key id after its
    /// `pq-` prefix.
    pub open spec fn hybrid_key_id(ed_id: Seq<char>, pq_id: Seq<char>) -> Seq<char> {
        "hybrid-"@ + ed_id.take(8) + "-"@ + pq_id.subrange(3, 11)
    }

    /// `signature` was made by the secret keys belonging to this pair's
    /// public keys.
    pub open spec fn signed_with_own_keys(&self, message: Seq<u8>, signature: HybridSignature) -> bool {
        &&& self.ed25519.public_key@.len() == 32
        &&& signature.classical_signature@.len() == 64
        &&& exists|sk: Seq<u8>|
            sk.len() == 32 && self.ed25519.public_key@ == #[trigger] ed25519_public_of(sk)
                && signature.classical_signature@ == ed25519_signature(sk, classical_message(message))
        &&& self.ml_dsa.public_key@.len() == DILITHIUM3_PUBLIC_KEY_BYTES
        &&& signature.pq_signature@.len() <= DILITHIUM3_SIGNATURE_BYTES
        &&& exists|sk: Seq<u8>|
            dilithium3_keypair_matches(self.ml_dsa.public_key@, sk)
                && signature.pq_signature@ == #[trigger] dilithium3_signature(pq_message(message), sk)
    }

    /// Generates a fresh hybrid key pair.
    pub fn generate() -> (r: Result<Self, CryptoError>)
        ensures
            r matches Ok(kp) && kp.ed25519.wf() && kp.ed25519.complete() && kp.ml_dsa.complete()
                && kp.key_id@ == Self::hybrid_key_id(kp.ed25519.key_id@, kp.ml_dsa.key_id@),
    {
        let ed25519 = match Ed25519KeyPair::generate() {
            Ok(k) => k,
            Err(e) => return Err(e),
        };
        let ml_dsa = match MlDsaKeyPair::generate() {
            Ok(k) => k,
            Err(e) => return Err(e),
        };
        let ed_part = substring(ed25519.key_id.as_str(), 0, 8);
        let pq_part = substring(ml_dsa.key_id.as_str(), 3, 11);
        let mut key_id = String::from_str("hybrid-");
        key_id.append(ed_part.as_str());
        key_id.append("-");
        key_id.append(pq_part.as_str());
        assert(ed25519.key_id@.subrange(0, 8) =~= ed25519.key_id@.take(8));
        Ok(HybridKeyPair { ed25519, ml_dsa, key_id })
    }

    /// A verify-only pair from the two public keys; the parts get the ids
    /// `<key_id>-ed` and `<key_id>-pq`.
    pub fn from_public_keys(ed25519_pk: &[u8], ml_dsa_pk: &[u8], key_id: &str) -> (r: Result<
        Self,
        CryptoError,
    >)
        ensures
            ed25519_pk@.len() != 32 ==> (r matches Err(e) && e.is_invalid_key(
                "Ed25519 public key must be 32 bytes"@,
            )),
            ed25519_pk@.len() == 32 && ml_dsa_pk@.len() != DILITHIUM3_PUBLIC_KEY_BYTES ==> (r matches Err(
                e,
            ) && e.is_invalid_key("Invalid ML-DSA-65 public key"@)),
            ed25519_pk@.len() == 32 && ml_dsa_pk@.len() == DILITHIUM3_PUBLIC_KEY_BYTES ==> (r matches Ok(
                kp,
            ) && kp.ed25519.public_key@ == ed25519_pk@ && kp.ed25519.secret_key is None
                && kp.ed25519.key_id@ == key_id@ + "-ed"@ && kp.ml_dsa.public_key@ == ml_dsa_pk@
                && kp.ml_dsa.secret_key is None && kp.ml_dsa.key_id@ == key_id@ + "-pq"@
                && kp.key_id@ == key_id@),
    {
        let ed_id = concat_str(key_id, "-ed");
        let ed25519 = match Ed25519KeyPair::from_public_key(ed25519_pk, ed_id.as_str()) {
            Ok(k) => k,
            Err(e) => return Err(e),
        };
        let pq_id = concat_str(key_id, "-pq");
        let ml_dsa = match MlDsaKeyPair::from_public_key(ml_dsa_pk, pq_id.as_str()) {
            Ok(k) => k,
            Err(e) => return Err(e),
        };
        Ok(HybridKeyPair { ed25519, ml_dsa, key_id: String::from_str(key_id) })
    }

    /// Signs the message with both keys, each over its own domain.
    pub fn sign(&self, message: &[u8]) -> (r: Result<HybridSignature, CryptoError>)
        requires
            self.ed25519.wf(),
        ensures
            match (self.ed25519.secret(), self.ml_dsa.secret()) {
                (Some(esk), Some(psk)) if psk.len() == 4032 => r matches Ok(sig)
                    && sig.classical_signature@ == ed25519_signature(esk, classical_message(message@))
                    && sig.pq_signature@ == dilithium3_signature(pq_message(message@), psk)
                    && sig.algorithm == SignatureAlgorithm::HybridEd25519MlDsa65,
                _ => r is Err,
            },
            self.ed25519.complete() && self.ml_dsa.complete() ==> (r matches Ok(sig)
                && self.signed_with_own_keys(message@, sig)),
            r matches Ok(sig) ==> sig.classical_signature@.len() == 64
                && sig.pq_signature@.len() == DILITHIUM3_SIGNATURE_BYTES,
            r matches Err(e) ==> e.text() == key_format_text(
                if self.ed25519.secret() is None || self.ml_dsa.secret() is None {
                    "No secret key available"@
                } else {
                    "Invalid secret key"@
                },
            ),
    {
        let classical = Self::domain_separate_str("classical-ed25519", message);
        let pq = Self::domain_separate_str("post-quantum-ml-dsa-65", message);
        let classical_sig = match self.ed25519.sign(classical.as_slice()) {
            Ok(s) => s,
            Err(e) => return Err(e),
        };
        let pq_sig = match self.ml_dsa.sign(pq.as_slice()) {
            Ok(s) => s,
            Err(e) => return Err(e),
        };
        let r = HybridSignature {
            classical_signature: classical_sig,
            pq_signature: pq_sig,
            algorithm: SignatureAlgorithm::HybridEd25519MlDsa65,
        };
        proof {
            if self.ed25519.complete() && self.ml_dsa.complete() {
                let esk = self.ed25519.secret()->0;
                let psk = self.ml_dsa.secret()->0;
                assert(classical@ == classical_message(message@));
                assert(pq@ == pq_message(message@));
                assert(esk.len() == 32 && self.ed25519.public_key@ == ed25519_public_of(esk)
                    && r.classical_signature@ == ed25519_signature(esk, classical_message(message@)));
                assert(dilithium3_keypair_matches(self.ml_dsa.public_key@, psk)
                    && r.pq_signature@ == dilithium3_signature(pq_message(message@), psk));
            }
        }
        Ok(r)
    }

    /// Verifies both parts; fails with the first part's error.
    pub fn verify(&self, message: &[u8], signature: &HybridSignature) -> (r: Result<bool, CryptoError>)
        ensures
            r matches Ok(b) ==> b,
            r is Ok ==> ed25519_verifies(
                self.ed25519.public_key@,
                classical_message(message@),
                signature.classical_signature@,
            ),
            r is Ok ==> dilithium3_verifies(signature.pq_signature@, pq_message(message@), self.ml_dsa.public_key@),
            self.signed_with_own_keys(message@, *signature) ==> (r matches Ok(b) && b),
            (r is Ok) == (hybrid_verify_error(
                self.ed25519.public_key@,
                self.ml_dsa.public_key@,
                message@,
                *signature,
            ) is None),
            r matches Err(e) ==> hybrid_verify_error(
                self.ed25519.public_key@,
                self.ml_dsa.public_key@,
                message@,
                *signature,
            ) == Some(e.text()),
    {
        let classical = Self::domain_separate_str("classical-ed25519", message);
        let pq = Self::domain_separate_str("post-quantum-ml-dsa-65", message);
        match self.ed25519.verify(classical.as_slice(), signature.classical_signature.as_slice()) {
            Ok(_) => {},
            Err(e) => return Err(e),
        }
        match self.ml_dsa.verify(pq.as_slice(), signature.pq_signature.as_slice()) {
            Ok(_) => {},
            Err(e) => return Err(e),
        }
        Ok(true)
    }

    fn domain_separate_str(domain: &str, message: &[u8]) -> (r: Vec<u8>)
        ensures
            r@ == domain_separated(char_bytes(domain@), message@),
    {
        let d = char_bytes_of(domain);
        Self::domain_separate(d.as_slice(), message)
    }

    /// `domain`, a zero byte, then `message`.
    pub fn domain_separate(domain: &[u8], message: &[u8]) -> (r: Vec<u8>)
        ensures
            r@ == domain_separated(domain@, message@),
    {
        let mut separated: Vec<u8> = Vec::new();
        push_all(&mut separated, domain);
        separated.push(0u8);
        push_all(&mut separated, message);
        separated
    }
}

/// Signs with whichever key the algorithm calls for.
pub struct UnifiedSigner;

impl UnifiedSigner {
    /// Signs `message` with the key of the chosen algorithm; a hybrid
    /// signature is returned in its bincode encoding.
    pub fn sign(
        algorithm: &SignatureAlgorithm,
        message: &[u8],
        ed25519_key: Option<&Ed25519KeyPair>,
        ml_dsa_key: Option<&MlDsaKeyPair>,
        hybrid_key: Option<&HybridKeyPair>,
    ) -> (r: Result<Vec<u8>, CryptoError>)
        requires
            ed25519_key matches Some(k) ==> k.wf(),
            hybrid_key matches Some(k) ==> k.ed25519.wf(),
        ensures
            match *algorithm {
                SignatureAlgorithm::Ed25519 => match ed25519_key {
                    None => r matches Err(e) && e.is_invalid_key("Ed25519 key required"@),
                    Some(k) => match k.secret() {
                        Some(sk) => r matches Ok(v) && v@ == ed25519_signature(sk, message@),
                        None => r is Err,
                    },
                },
                SignatureAlgorithm::MlDsa65 => match ml_dsa_key {
                    None => r matches Err(e) && e.is_invalid_key("ML-DSA key required"@),
                    Some(k) => match k.secret() {
                        Some(sk) if sk.len() == 4032 => r matches Ok(v) && v@ == dilithium3_signature(
                            message@,
                            sk,
                        ),
                        _ => r is Err,
                    },
                },
                SignatureAlgorithm::HybridEd25519MlDsa65 => match hybrid_key {
                    None => r matches Err(e) && e.is_invalid_key("Hybrid key required"@),
                    Some(k) => match (k.ed25519.secret(), k.ml_dsa.secret()) {
                        (Some(esk), Some(psk)) if psk.len() == 4032 => r matches Ok(v) && v@
                            == hybrid_signature_bytes(
                            ed25519_signature(esk, classical_message(message@)),
                            dilithium3_signature(pq_message(message@), psk),
                            SignatureAlgorithm::HybridEd25519MlDsa65,
                        ),
                        _ => r is Err,
                    },
                },
            },
    {
        match algorithm {
            SignatureAlgorithm::Ed25519 => match ed25519_key {
                None => Err(CryptoError::InvalidKeyFormat(String::from_str("Ed25519 key required"))),
                Some(key) => key.sign(message),
            },
            SignatureAlgorithm::MlDsa65 => match ml_dsa_key {
                None => Err(CryptoError::InvalidKeyFormat(String::from_str("ML-DSA key required"))),
                Some(key) => key.sign(message),
            },
            SignatureAlgorithm::HybridEd25519MlDsa65 => match hybrid_key {
                None => Err(CryptoError::InvalidKeyFormat(String::from_str("Hybrid key required"))),
                Some(key) => match key.sign(message) {
                    Ok(sig) => Ok(sig.to_bytes()),
                    Err(e) => Err(e),
                },
            },
        }
    }
}

} // verus!
