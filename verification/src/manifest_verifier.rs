//! The update client's verification of a signed manifest against the
//! identity of its publisher: publisher match, presence and validity of
//! every signature, expiry and the version chain.

use vstd::prelude::*;
use crate::backend::{
    base64_decode, base64_error_text, format_utc, utc_text, ed25519_public_of, ed25519_signature,
    dilithium3_keypair_matches, dilithium3_signature, DILITHIUM3_PUBLIC_KEY_BYTES,
    DILITHIUM3_SIGNATURE_BYTES,
};
use crate::base64_text::base64_decoded;
use crate::classical::{Ed25519KeyPair, ed25519_verify_error};
use crate::core_types::{
    CryptoError, FileEntry, ManifestSignature, SignatureAlgorithm, SignedManifest, UpdateManifest,
    key_format_text, serialization_text,
};
use crate::hashing::{Hasher, digest_of};
use crate::hex::hex_of;
use crate::hybrid::{HybridKeyPair, HybridSignature, hybrid_verify_error, classical_message, pq_message};
use crate::key_management::PublisherIdentity;
use crate::pq::{MlDsaKeyPair, ml_dsa_verify_error};
use crate::text::{concat_str, copy_string, push_text, texts};
use crate::version::{decimal_of, push_decimal_u64};

verus! {

/// The outcome of verifying a manifest.
#[derive(Clone, Debug)]
pub struct VerificationResult {
    pub is_valid: bool,
    pub checks: Vec<VerificationCheck>,
    pub warnings: Vec<String>,
    pub errors: Vec<String>,
}

/// One named check and its outcome.
#[derive(Clone, Debug)]
pub struct VerificationCheck {
    pub name: String,
    pub passed: bool,
    pub details: String,
}

/// A check as (name, passed, details).
pub type CheckView = (Seq<char>, bool, Seq<char>);

impl View for VerificationCheck {
    type V = CheckView;

    open spec fn view(&self) -> CheckView {
        (self.name@, self.passed, self.details@)
    }
}

/// The views of a sequence of checks.
pub open spec fn check_views(v: Seq<VerificationCheck>) -> Seq<CheckView> {
    Seq::new(v.len(), |i: int| v[i]@)
}

/// Verifies manifests.
pub struct ManifestVerifier;

// ---------------------------------------------------------------------
// What a single signature check gives
// ---------------------------------------------------------------------

/// The error text for a public key that does not decode from base64.
pub open spec fn key_decode_error(b64: Seq<char>) -> Option<Seq<char>> {
    Some(serialization_text(base64_error_text(b64)))
}

/// The text of the error verifying `sig` gives, or `None` when it
/// verifies. `parsed` is what the hybrid signature's bytes parse to; it is
/// read only for a hybrid signature whose keys decode.
#[verifier::opaque]
pub open spec fn signature_error(
    manifest_bytes: Seq<u8>,
    sig: ManifestSignature,
    publisher: PublisherIdentity,
    parsed: Result<HybridSignature, String>,
) -> Option<Seq<char>> {
    match base64_decoded(sig.signature@) {
        None => Some(
            serialization_text("Invalid base64 signature: "@ + base64_error_text(sig.signature@)),
        ),
        Some(sig_bytes) => match sig.algorithm {
            SignatureAlgorithm::Ed25519 => match publisher.ed25519_public_key {
                None => Some(key_format_text("No Ed25519 public key"@)),
                Some(k) => match base64_decoded(k@) {
                    None => key_decode_error(k@),
                    Some(pk) => if pk.len() != 32 {
                        Some(key_format_text("Ed25519 public key must be 32 bytes"@))
                    } else {
                        ed25519_verify_error(pk, manifest_bytes, sig_bytes)
                    },
                },
            },
            SignatureAlgorithm::MlDsa65 => match publisher.ml_dsa_public_key {
                None => Some(key_format_text("No ML-DSA public key"@)),
                Some(k) => match base64_decoded(k@) {
                    None => key_decode_error(k@),
                    Some(pk) => if pk.len() != DILITHIUM3_PUBLIC_KEY_BYTES {
                        Some(key_format_text("Invalid ML-DSA-65 public key"@))
                    } else {
                        ml_dsa_verify_error(pk, manifest_bytes, sig_bytes)
                    },
                },
            },
            SignatureAlgorithm::HybridEd25519MlDsa65 => match (
                publisher.ed25519_public_key,
                publisher.ml_dsa_public_key,
            ) {
                (None, _) => Some(key_format_text("No Ed25519 public key"@)),
                (Some(_), None) => Some(key_format_text("No ML-DSA public key"@)),
                (Some(e), Some(m)) => match base64_decoded(e@) {
                    None => key_decode_error(e@),
                    Some(ed_pk) => match base64_decoded(m@) {
                        None => key_decode_error(m@),
                        Some(pq_pk) => if ed_pk.len() != 32 {
                            Some(key_format_text("Ed25519 public key must be 32 bytes"@))
                        } else if pq_pk.len() != DILITHIUM3_PUBLIC_KEY_BYTES {
                            Some(key_format_text("Invalid ML-DSA-65 public key"@))
                        } else {
                            match parsed {
                                Err(t) => Some(serialization_text(t@)),
                                Ok(hs) => hybrid_verify_error(ed_pk, pq_pk, manifest_bytes, hs),
                            }
                        },
                    },
                },
            },
        },
    }
}

/// `sig` was made over `manifest_bytes` with the secret keys belonging to
/// the publisher's public keys (for a hybrid signature: `parsed` is that
/// signature).
#[verifier::opaque]
pub open spec fn genuine_signature(
    manifest_bytes: Seq<u8>,
    sig: ManifestSignature,
    publisher: PublisherIdentity,
    parsed: Result<HybridSignature, String>,
) -> bool {
    match base64_decoded(sig.signature@) {
        None => false,
        Some(s) => match sig.algorithm {
            SignatureAlgorithm::Ed25519 => match publisher.ed25519_public_key {
                None => false,
                Some(k) => match base64_decoded(k@) {
                    None => false,
                    Some(pk) => genuine_ed25519(pk, manifest_bytes, s),
                },
            },
            SignatureAlgorithm::MlDsa65 => match publisher.ml_dsa_public_key {
                None => false,
                Some(k) => match base64_decoded(k@) {
                    None => false,
                    Some(pk) => genuine_ml_dsa(pk, manifest_bytes, s),
                },
            },
            SignatureAlgorithm::HybridEd25519MlDsa65 => match (
                publisher.ed25519_public_key,
                publisher.ml_dsa_public_key,
                parsed,
            ) {
                (Some(e), Some(m), Ok(hs)) => match (base64_decoded(e@), base64_decoded(m@)) {
                    (Some(ed_pk), Some(pq_pk)) => genuine_ed25519(
                        ed_pk,
                        classical_message(manifest_bytes),
                        hs.classical_signature@,
                    ) && genuine_ml_dsa(pq_pk, pq_message(manifest_bytes), hs.pq_signature@),
                    _ => false,
                },
                _ => false,
            },
        },
    }
}

/// `s` is the Ed25519 signature of `msg` under the secret key of `pk`.
pub open spec fn genuine_ed25519(pk: Seq<u8>, msg: Seq<u8>, s: Seq<u8>) -> bool {
    &&& pk.len() == 32
    &&& s.len() == 64
    &&& exists|sk: Seq<u8>|
        sk.len() == 32 && pk == #[trigger] ed25519_public_of(sk) && s == ed25519_signature(sk, msg)
}

/// `s` is the Dilithium3 signature of `msg` under the secret key
/// generated together with `pk`.
pub open spec fn genuine_ml_dsa(pk: Seq<u8>, msg: Seq<u8>, s: Seq<u8>) -> bool {
    &&& pk.len() == DILITHIUM3_PUBLIC_KEY_BYTES
    &&& s.len() <= DILITHIUM3_SIGNATURE_BYTES
    &&& exists|sk: Seq<u8>|
        dilithium3_keypair_matches(pk, sk) && s == #[trigger] dilithium3_signature(msg, sk)
}

// ---------------------------------------------------------------------
// The checks of a whole manifest
// ---------------------------------------------------------------------

pub open spec fn publisher_check(m: UpdateManifest, p: PublisherIdentity) -> CheckView {
    (
        "Publisher ID Match"@,
        m.publisher_id@ == p.id@,
        "Expected: "@ + p.id@ + ", Got: "@ + m.publisher_id@,
    )
}

pub open spec fn publisher_errors(m: UpdateManifest, p: PublisherIdentity) -> Seq<Seq<char>> {
    if m.publisher_id@ == p.id@ {
        Seq::<Seq<char>>::empty()
    } else {
        seq!["Publisher ID mismatch"@]
    }
}

pub open spec fn signature_check(sig: ManifestSignature, err: Option<Seq<char>>) -> CheckView {
    (
        "Signature Verification ("@ + sig.algorithm.name_text() + ")"@,
        err is None,
        match err {
            None => "Signature verified successfully"@,
            Some(t) => "Verification failed: "@ + t,
        },
    )
}

/// The checks of the first `n` signatures.
pub open spec fn signature_checks(
    bytes: Seq<u8>,
    sigs: Seq<ManifestSignature>,
    p: PublisherIdentity,
    parsed: Seq<Result<HybridSignature, String>>,
    n: int,
) -> Seq<CheckView> {
    Seq::new(n as nat, |i: int| signature_check(sigs[i], signature_error(bytes, sigs[i], p, parsed[i])))
}

/// The errors of the first `n` signatures, one per failed signature.
pub open spec fn signature_failures(
    bytes: Seq<u8>,
    sigs: Seq<ManifestSignature>,
    p: PublisherIdentity,
    parsed: Seq<Result<HybridSignature, String>>,
    n: int,
) -> Seq<Seq<char>>
    decreases n,
{
    if n <= 0 {
        Seq::<Seq<char>>::empty()
    } else {
        signature_failures(bytes, sigs, p, parsed, n - 1) + if signature_error(
            bytes,
            sigs[n - 1],
            p,
            parsed[n - 1],
        ) is None {
            Seq::<Seq<char>>::empty()
        } else {
            seq!["Signature verification failed for key "@ + sigs[n - 1].key_id@]
        }
    }
}

/// A list of signatures has no failures exactly when no signature has an
/// error.
pub proof fn lemma_no_failures(
    bytes: Seq<u8>,
    sigs: Seq<ManifestSignature>,
    p: PublisherIdentity,
    parsed: Seq<Result<HybridSignature, String>>,
    n: int,
)
    requires
        0 <= n,
    ensures
        (signature_failures(bytes, sigs, p, parsed, n).len() == 0) == (forall|i: int|
            0 <= i < n ==> (#[trigger] signature_error(bytes, sigs[i], p, parsed[i])) is None),
    decreases n,
{
    if n > 0 {
        lemma_no_failures(bytes, sigs, p, parsed, n - 1);
        if (forall|i: int| 0 <= i < n - 1 ==> (#[trigger] signature_error(bytes, sigs[i], p, parsed[i])) is None)
            && signature_error(bytes, sigs[n - 1], p, parsed[n - 1]) is None {
            assert forall|i: int| 0 <= i < n implies (#[trigger] signature_error(
                bytes,
                sigs[i],
                p,
                parsed[i],
            )) is None by {
                if i < n - 1 {
                }
            }
        }
    }
}

/// The checks after the signatures: expiry, then the version chain.
pub open spec fn trailing_checks(m: UpdateManifest, now: i64) -> Seq<CheckView> {
    (match m.expires {
        Some(e) => seq![("Manifest Expiration"@, !(now > e), "Expires: "@ + utc_text(e))],
        None => Seq::<CheckView>::empty(),
    }) + (match m.previous_version {
        Some(prev) => seq![("Version Chain"@, true, prev@ + " -> "@ + m.version@)],
        None => Seq::<CheckView>::empty(),
    })
}

pub open spec fn expiry_warnings(m: UpdateManifest, now: i64) -> Seq<Seq<char>> {
    match m.expires {
        Some(e) => if now > e {
            seq!["Manifest has expired"@]
        } else {
            Seq::<Seq<char>>::empty()
        },
        None => Seq::<Seq<char>>::empty(),
    }
}

pub open spec fn signatures_present_check(n: nat) -> CheckView {
    ("Signatures Present"@, true, decimal_of(n) + " signature(s) found"@)
}

fn check(name: String, passed: bool, details: String) -> (r: VerificationCheck)
    ensures
        r@ == (name@, passed, details@),
{
    VerificationCheck { name, passed, details }
}

fn push_check(v: &mut Vec<VerificationCheck>, c: VerificationCheck)
    ensures
        check_views(final(v)@) == check_views(old(v)@).push(c@),
{
    v.push(c);
    assert(check_views(v@) =~= check_views(old(v)@).push(c@));
}

impl ManifestVerifier {
    /// Full verification of a signed manifest against its publisher, at
    /// time `now` (seconds since the Unix epoch). `manifest_bytes` is the
    /// JSON serialization of `manifest.manifest` (or the error that
    /// serialization gave); `parsed_hybrid[i]` is what the bytes of
    /// signature `i` parse to as a hybrid signature.
    pub fn verify(
        manifest: &SignedManifest,
        publisher: &PublisherIdentity,
        manifest_bytes: &Result<Vec<u8>, String>,
        parsed_hybrid: &Vec<Result<HybridSignature, String>>,
        now: i64,
    ) -> (r: VerificationResult)
        requires
            parsed_hybrid@.len() == manifest.signatures@.len(),
        ensures
            r.is_valid == (r.errors@.len() == 0),
            ({
                let m = manifest.manifest;
                let sigs = manifest.signatures@;
                let n = sigs.len() as int;
                let c0 = publisher_check(m, *publisher);
                let e0 = publisher_errors(m, *publisher);
                if n == 0 {
                    &&& !r.is_valid
                    &&& check_views(r.checks@) == seq![
                        c0,
                        ("Signatures Present"@, false, "No signatures found"@),
                    ]
                    &&& texts(r.errors@) == e0.push("Manifest has no signatures"@)
                    &&& r.warnings@.len() == 0
                } else {
                    match manifest_bytes {
                        Err(t) => {
                            &&& !r.is_valid
                            &&& check_views(r.checks@) == seq![c0, signatures_present_check(n as nat)]
                            &&& texts(r.errors@) == e0.push("Cannot serialize manifest: "@ + t@)
                            &&& r.warnings@.len() == 0
                        },
                        Ok(b) => {
                            &&& r.is_valid == (m.publisher_id@ == publisher.id@ && forall|i: int|
                                0 <= i < n ==> (#[trigger] signature_error(
                                    b@,
                                    sigs[i],
                                    *publisher,
                                    parsed_hybrid@[i],
                                )) is None)
                            &&& check_views(r.checks@) == seq![c0, signatures_present_check(n as nat)]
                                + signature_checks(b@, sigs, *publisher, parsed_hybrid@, n)
                                + trailing_checks(m, now)
                            &&& texts(r.errors@) == e0 + signature_failures(
                                b@,
                                sigs,
                                *publisher,
                                parsed_hybrid@,
                                n,
                            )
                            &&& texts(r.warnings@) == expiry_warnings(m, now)
                            &&& (m.publisher_id@ == publisher.id@ && forall|i: int|
                                0 <= i < n ==> #[trigger] genuine_signature(
                                    b@,
                                    sigs[i],
                                    *publisher,
                                    parsed_hybrid@[i],
                                )) ==> r.is_valid
                        },
                    }
                }
            }),
    {
        let m = &manifest.manifest;
        let mut is_valid = true;
        let mut checks: Vec<VerificationCheck> = Vec::new();
        let mut warnings: Vec<String> = Vec::new();
        let mut errors: Vec<String> = Vec::new();

        let publisher_match = m.publisher_id == publisher.id;
        let mut details = concat_str("Expected: ", publisher.id.as_str());
        details.append(", Got: ");
        details.append(m.publisher_id.as_str());
        push_check(&mut checks, check(String::from_str("Publisher ID Match"), publisher_match, details));
        if !publisher_match {
            is_valid = false;
            push_text(&mut errors, String::from_str("Publisher ID mismatch"));
        }
        assert(texts(errors@) == publisher_errors(*m, *publisher));

        let n = manifest.signatures.len();
        if n == 0 {
            push_check(
                &mut checks,
                check(String::from_str("Signatures Present"), false, String::from_str("No signatures found")),
            );
            push_text(&mut errors, String::from_str("Manifest has no signatures"));
            assert(errors@.len() == texts(errors@).len());
            return VerificationResult { is_valid: false, checks, warnings, errors };
        }
        let mut count = String::new();
        push_decimal_u64(&mut count, n as u64);
        count.append(" signature(s) found");
        push_check(&mut checks, check(String::from_str("Signatures Present"), true, count));

        let bytes = match manifest_bytes {
            Ok(b) => b,
            Err(t) => {
                push_text(&mut errors, concat_str("Cannot serialize manifest: ", t.as_str()));
                assert(errors@.len() == texts(errors@).len());
                return VerificationResult { is_valid: false, checks, warnings, errors };
            },
        };

        let ghost sigs = manifest.signatures@;
        let ghost head = check_views(checks@);
        let ghost e0 = texts(errors@);
        let mut i: usize = 0;
        while i < n
            invariant
                n == manifest.signatures@.len(),
                sigs == manifest.signatures@,
                parsed_hybrid@.len() == n,
                i <= n,
                check_views(checks@) == head + signature_checks(
                    bytes@,
                    sigs,
                    *publisher,
                    parsed_hybrid@,
                    i as int,
                ),
                texts(errors@) == e0 + signature_failures(bytes@, sigs, *publisher, parsed_hybrid@, i as int),
                is_valid == (m.publisher_id@ == publisher.id@ && forall|j: int|
                    0 <= j < i ==> (#[trigger] signature_error(
                        bytes@,
                        sigs[j],
                        *publisher,
                        parsed_hybrid@[j],
                    )) is None),
                forall|j: int|
                    0 <= j < i && #[trigger] genuine_signature(
                        bytes@,
                        sigs[j],
                        *publisher,
                        parsed_hybrid@[j],
                    ) ==> signature_error(bytes@, sigs[j], *publisher, parsed_hybrid@[j]) is None,
            decreases n - i,
        {
            let sig = &manifest.signatures[i];
            let outcome = Self::verify_signature(bytes.as_slice(), sig, publisher, &parsed_hybrid[i]);
            let mut name = concat_str("Signature Verification (", sig.algorithm.name().as_str());
            name.append(")");
            let passed = outcome.is_ok();
            let details = match &outcome {
                Ok(_) => String::from_str("Signature verified successfully"),
                Err(e) => concat_str("Verification failed: ", e.to_string().as_str()),
            };
            let ghost before = check_views(checks@);
            push_check(&mut checks, check(name, passed, details));
            proof {
                assert(signature_checks(bytes@, sigs, *publisher, parsed_hybrid@, i + 1)
                    =~= signature_checks(bytes@, sigs, *publisher, parsed_hybrid@, i as int).push(
                    signature_check(sigs[i as int], signature_error(bytes@, sigs[i as int], *publisher, parsed_hybrid@[i as int])),
                ));
                assert(check_views(checks@) =~= head + signature_checks(
                    bytes@,
                    sigs,
                    *publisher,
                    parsed_hybrid@,
                    i + 1,
                ));
            }
            if !passed {
                is_valid = false;
                push_text(&mut errors, concat_str("Signature verification failed for key ", sig.key_id.as_str()));
            }
            proof {
                assert(texts(errors@) =~= e0 + signature_failures(
                    bytes@,
                    sigs,
                    *publisher,
                    parsed_hybrid@,
                    i + 1,
                ));
            }
            i = i + 1;
        }

        let ghost mid = check_views(checks@);
        match m.expires {
            Some(e) => {
                let expired = now > e;
                push_check(
                    &mut checks,
                    check(String::from_str("Manifest Expiration"), !expired, concat_str("Expires: ", format_utc(e).as_str())),
                );
                if expired {
                    push_text(&mut warnings, String::from_str("Manifest has expired"));
                }
            },
            None => {},
        }
        match &m.previous_version {
            Some(prev) => {
                let mut d = copy_string(prev);
                d.append(" -> ");
                d.append(m.version.as_str());
                push_check(&mut checks, check(String::from_str("Version Chain"), true, d));
            },
            None => {},
        }
        assert(check_views(checks@) =~= mid + trailing_checks(*m, now));
        assert(texts(warnings@) =~= expiry_warnings(*m, now));
        assert(head == seq![publisher_check(*m, *publisher), signatures_present_check(n as nat)]);
        proof {
            if m.publisher_id@ == publisher.id@ && forall|j: int|
                0 <= j < n ==> #[trigger] genuine_signature(bytes@, sigs[j], *publisher, parsed_hybrid@[j]) {
                assert forall|j: int| 0 <= j < n implies (#[trigger] signature_error(
                    bytes@,
                    sigs[j],
                    *publisher,
                    parsed_hybrid@[j],
                )) is None by {
                    assert(genuine_signature(bytes@, sigs[j], *publisher, parsed_hybrid@[j]));
                }
            }
        }
        assert(texts(errors@) == publisher_errors(*m, *publisher) + signature_failures(bytes@, sigs, *publisher, parsed_hybrid@, n as int));
        proof {
            lemma_no_failures(bytes@, sigs, *publisher, parsed_hybrid@, n as int);
            assert(errors@.len() == texts(errors@).len());
        }
        VerificationResult { is_valid, checks, warnings, errors }
    }

    /// Verifies one signature against the publisher's keys. `parsed_hybrid`
    /// is what the signature's bytes parse to as a hybrid signature; it is
    /// read only for a hybrid signature whose keys decode.
    pub fn verify_signature(
        manifest_bytes: &[u8],
        signature: &ManifestSignature,
        publisher: &PublisherIdentity,
        parsed_hybrid: &Result<HybridSignature, String>,
    ) -> (r: Result<(), CryptoError>)
        ensures
            (r is Ok) == (signature_error(manifest_bytes@, *signature, *publisher, *parsed_hybrid) is None),
            r matches Err(e) ==> signature_error(manifest_bytes@, *signature, *publisher, *parsed_hybrid)
                == Some(e.text()),
            genuine_signature(manifest_bytes@, *signature, *publisher, *parsed_hybrid) ==> r is Ok,
    {
        reveal(signature_error);
        reveal(genuine_signature);
        let sig_bytes = match base64_decode(signature.signature.as_str()) {
            Ok(v) => v,
            Err(t) => {
                return Err(
                    CryptoError::SerializationError(concat_str("Invalid base64 signature: ", t.as_str())),
                );
            },
        };
        match signature.algorithm {
            SignatureAlgorithm::Ed25519 => {
                let pk_b64 = match &publisher.ed25519_public_key {
                    Some(k) => k,
                    None => {
                        return Err(CryptoError::InvalidKeyFormat(String::from_str("No Ed25519 public key")));
                    },
                };
                let pk = match base64_decode(pk_b64.as_str()) {
                    Ok(v) => v,
                    Err(t) => return Err(CryptoError::SerializationError(t)),
                };
                let key = match Ed25519KeyPair::from_public_key(pk.as_slice(), signature.key_id.as_str()) {
                    Ok(k) => k,
                    Err(e) => return Err(e),
                };
                match key.verify(manifest_bytes, sig_bytes.as_slice()) {
                    Ok(_) => Ok(()),
                    Err(e) => Err(e),
                }
            },
            SignatureAlgorithm::MlDsa65 => {
                let pk_b64 = match &publisher.ml_dsa_public_key {
                    Some(k) => k,
                    None => {
                        return Err(CryptoError::InvalidKeyFormat(String::from_str("No ML-DSA public key")));
                    },
                };
                let pk = match base64_decode(pk_b64.as_str()) {
                    Ok(v) => v,
                    Err(t) => return Err(CryptoError::SerializationError(t)),
                };
                let key = match MlDsaKeyPair::from_public_key(pk.as_slice(), signature.key_id.as_str()) {
                    Ok(k) => k,
                    Err(e) => return Err(e),
                };
                match key.verify(manifest_bytes, sig_bytes.as_slice()) {
                    Ok(_) => Ok(()),
                    Err(e) => Err(e),
                }
            },
            SignatureAlgorithm::HybridEd25519MlDsa65 => {
                let ed_b64 = match &publisher.ed25519_public_key {
                    Some(k) => k,
                    None => {
                        return Err(CryptoError::InvalidKeyFormat(String::from_str("No Ed25519 public key")));
                    },
                };
                let pq_b64 = match &publisher.ml_dsa_public_key {
                    Some(k) => k,
                    None => {
                        return Err(CryptoError::InvalidKeyFormat(String::from_str("No ML-DSA public key")));
                    },
                };
                let ed_pk = match base64_decode(ed_b64.as_str()) {
                    Ok(v) => v,
                    Err(t) => return Err(CryptoError::SerializationError(t)),
                };
                let pq_pk = match base64_decode(pq_b64.as_str()) {
                    Ok(v) => v,
                    Err(t) => return Err(CryptoError::SerializationError(t)),
                };
                let key = match HybridKeyPair::from_public_keys(
                    ed_pk.as_slice(),
                    pq_pk.as_slice(),
                    signature.key_id.as_str(),
                ) {
                    Ok(k) => k,
                    Err(e) => return Err(e),
                };
                let hs = match parsed_hybrid {
                    Ok(h) => h,
                    Err(t) => return Err(CryptoError::SerializationError(copy_string(t))),
                };
                match key.verify(manifest_bytes, hs) {
                    Ok(_) => Ok(()),
                    Err(e) => Err(e),
                }
            },
        }
    }

    /// Checks a downloaded file's contents against its manifest entry;
    /// `None` stands for a file that could not be read.
    pub fn verify_file_integrity(file_contents: Option<&[u8]>, expected: &FileEntry) -> (r: VerificationCheck)
        ensures
            ({
                let ok = match file_contents {
                    Some(c) => hex_of(digest_of(expected.hash_algorithm, c@)) == expected.hash@,
                    None => false,
                };
                r@ == (
                    "File Integrity: "@ + expected.path@,
                    ok,
                    if ok {
                        "Hash verified ("@ + expected.hash_algorithm.name_text() + "): "@ + expected.hash@
                    } else {
                        "Hash mismatch - file may be tampered"@
                    },
                )
            }),
    {
        let name = concat_str("File Integrity: ", expected.path.as_str());
        let contents = match file_contents {
            Some(c) => c,
            None => return check(name, false, String::from_str("Hash mismatch - file may be tampered")),
        };
        match Hasher::verify_file_hash(&expected.hash_algorithm, contents, expected.hash.as_str()) {
            Ok(true) => {
                let mut d = concat_str("Hash verified (", expected.hash_algorithm.name().as_str());
                d.append("): ");
                d.append(expected.hash.as_str());
                check(name, true, d)
            },
            _ => check(name, false, String::from_str("Hash mismatch - file may be tampered")),
        }
    }
}

} // verus!
