//! The client's verification of a downloaded package: size, SHA3-256
//! digest, both signatures, anti-downgrade and publisher match must all
//! pass.

use vstd::prelude::*;
use crate::backend::sha3_256_digest;
use crate::crypto::{
    CryptoFailure, HybridPublicKey, compute_sha3_256_hex, verify_sha3_256, verify_hybrid_signature,
    hybrid_outcome, signed_by, details_text,
};
use crate::hex::hex_of;
use crate::models::{metadata_message, package_message_bytes, PackageMetadata};
use crate::text::{copy_string, push_text, texts, join_lines, join_with_newlines, str_eq};
use crate::version::{SemanticVersion, version_newer, version_text, decimal_of, push_decimal_u64};

verus! {

/// The outcome of verifying a package.
#[derive(Clone, Debug)]
pub struct VerificationReport {
    pub overall_valid: bool,
    pub size_check: bool,
    pub hash_check: bool,
    pub computed_hash: String,
    pub expected_hash: String,
    pub dilithium_valid: bool,
    pub ed25519_valid: bool,
    pub version_check: bool,
    pub publisher_check: bool,
    pub signature_details: String,
    pub errors: Vec<String>,
}

pub open spec fn size_error(expected: u64, actual: nat) -> Seq<char> {
    "Size mismatch: expected "@ + decimal_of(expected as nat) + " bytes, got "@ + decimal_of(actual)
        + " bytes"@
}

pub open spec fn hash_error(expected: Seq<char>, computed: Seq<char>) -> Seq<char> {
    "Hash mismatch: expected "@ + expected + ", computed "@ + computed
}

pub open spec fn downgrade_error(from: SemanticVersion, to: SemanticVersion) -> Seq<char> {
    "Downgrade attempt blocked: "@ + version_text(from) + " → "@ + version_text(to)
        + " is not allowed"@
}

pub open spec fn publisher_error(claimed: Seq<char>, owner: Seq<char>) -> Seq<char> {
    "Publisher mismatch: metadata says '"@ + claimed + "', key belongs to '"@ + owner + "'"@
}

/// The outcome of the signature check as (Dilithium valid, Ed25519 valid):
/// the signature must be over the package statement of the metadata.
pub open spec fn signature_flags(m: PackageMetadata, key: HybridPublicKey) -> (bool, bool) {
    match hybrid_outcome(
        metadata_message(m),
        m.signature.dilithium_signature@,
        m.signature.ed25519_signature@,
        key.dilithium_public_key@,
        key.ed25519_public_key@,
    ) {
        Ok((d, e)) => (d, e),
        Err(_) => (false, false),
    }
}

/// The errors a verification reports, in order.
pub open spec fn package_errors(
    data: Seq<u8>,
    m: PackageMetadata,
    key: HybridPublicKey,
    current: SemanticVersion,
) -> Seq<Seq<char>> {
    let computed = hex_of(sha3_256_digest(data));
    let e1 = if data.len() == m.file_size {
        Seq::<Seq<char>>::empty()
    } else {
        seq![size_error(m.file_size, data.len())]
    };
    let e2 = if computed == m.sha3_256_hash@ {
        Seq::<Seq<char>>::empty()
    } else {
        seq![hash_error(m.sha3_256_hash@, computed)]
    };
    let e3 = match hybrid_outcome(
        metadata_message(m),
        m.signature.dilithium_signature@,
        m.signature.ed25519_signature@,
        key.dilithium_public_key@,
        key.ed25519_public_key@,
    ) {
        Ok((d, e)) => (if d {
            Seq::<Seq<char>>::empty()
        } else {
            seq!["Dilithium signature INVALID"@]
        }) + (if e {
            Seq::<Seq<char>>::empty()
        } else {
            seq!["Ed25519 signature INVALID"@]
        }),
        Err(f) => seq!["Signature verification error: "@ + f.message_text()],
    };
    let e4 = if version_newer(m.version, current) {
        Seq::<Seq<char>>::empty()
    } else {
        seq![downgrade_error(current, m.version)]
    };
    let e5 = if m.publisher_id@ == key.publisher_id@ {
        Seq::<Seq<char>>::empty()
    } else {
        seq![publisher_error(m.publisher_id@, key.publisher_id@)]
    };
    e1 + e2 + e3 + e4 + e5
}

/// Full verification of an update package against its metadata, the
/// publisher's key and the installed version. The hybrid signature must be
/// over the package statement (application, version, file name and
/// digest), so metadata altered after signing does not verify.
pub fn verify_package(
    package_data: &[u8],
    metadata: &PackageMetadata,
    publisher_key: &HybridPublicKey,
    current_version: &SemanticVersion,
) -> (r: Result<VerificationReport, CryptoFailure>)
    ensures
        r matches Ok(rep) && {
            let computed = hex_of(sha3_256_digest(package_data@));
            let (d, e) = signature_flags(*metadata, *publisher_key);
            &&& rep.size_check == (package_data@.len() == metadata.file_size)
            &&& rep.hash_check == (computed == metadata.sha3_256_hash@)
            &&& rep.computed_hash@ == computed
            &&& rep.expected_hash@ == metadata.sha3_256_hash@
            &&& rep.dilithium_valid == d
            &&& rep.ed25519_valid == e
            &&& rep.signature_details@ == match hybrid_outcome(
                metadata_message(*metadata),
                metadata.signature.dilithium_signature@,
                metadata.signature.ed25519_signature@,
                publisher_key.dilithium_public_key@,
                publisher_key.ed25519_public_key@,
            ) {
                Ok((d, e)) => details_text(d, e),
                Err(_) => Seq::<char>::empty(),
            }
            &&& rep.version_check == version_newer(metadata.version, *current_version)
            &&& rep.publisher_check == (metadata.publisher_id@ == publisher_key.publisher_id@)
            &&& rep.overall_valid == (rep.size_check && rep.hash_check && rep.dilithium_valid
                && rep.ed25519_valid && rep.version_check && rep.publisher_check)
            &&& texts(rep.errors@) == package_errors(
                package_data@,
                *metadata,
                *publisher_key,
                *current_version,
            )
        },
        ({
            &&& package_data@.len() == metadata.file_size
            &&& hex_of(sha3_256_digest(package_data@)) == metadata.sha3_256_hash@
            &&& signed_by(
                metadata_message(*metadata),
                metadata.signature.dilithium_signature@,
                metadata.signature.ed25519_signature@,
                publisher_key.dilithium_public_key@,
                publisher_key.ed25519_public_key@,
            )
            &&& version_newer(metadata.version, *current_version)
            &&& metadata.publisher_id@ == publisher_key.publisher_id@
        }) ==> (r matches Ok(rep) && rep.overall_valid),
{
    let mut errors: Vec<String> = Vec::new();
    let ghost mut expect: Seq<Seq<char>> = Seq::empty();
    assert(texts(errors@) =~= expect);

    let size_check = package_data.len() as u64 == metadata.file_size;
    if !size_check {
        let mut m = String::from_str("Size mismatch: expected ");
        push_decimal_u64(&mut m, metadata.file_size);
        m.append(" bytes, got ");
        push_decimal_u64(&mut m, package_data.len() as u64);
        m.append(" bytes");
        push_text(&mut errors, m);
    }
    let ghost e1 = texts(errors@);

    let computed_hash = compute_sha3_256_hex(package_data);
    let hash_check = verify_sha3_256(package_data, metadata.sha3_256_hash.as_str());
    if !hash_check {
        let mut m = String::from_str("Hash mismatch: expected ");
        m.append(metadata.sha3_256_hash.as_str());
        m.append(", computed ");
        m.append(computed_hash.as_str());
        push_text(&mut errors, m);
    }
    let ghost e2 = texts(errors@);

    let mut dilithium_valid = false;
    let mut ed25519_valid = false;
    let mut signature_details = String::new();
    let message = package_message_bytes(
        metadata.app_id.as_str(),
        &metadata.version,
        metadata.filename.as_str(),
        metadata.sha3_256_hash.as_str(),
    );
    match verify_hybrid_signature(message.as_slice(), &metadata.signature, publisher_key) {
        Ok(integrity) => {
            dilithium_valid = integrity.dilithium_valid;
            ed25519_valid = integrity.ed25519_valid;
            signature_details = integrity.details;
            if !dilithium_valid {
                push_text(&mut errors, String::from_str("Dilithium signature INVALID"));
            }
            if !ed25519_valid {
                push_text(&mut errors, String::from_str("Ed25519 signature INVALID"));
            }
        },
        Err(e) => {
            let mut m = String::from_str("Signature verification error: ");
            let msg = e.message();
            m.append(msg.as_str());
            push_text(&mut errors, m);
        },
    }
    let ghost e3 = texts(errors@);

    let version_check = SemanticVersion::is_safe_upgrade(current_version, &metadata.version);
    if !version_check {
        let mut m = String::from_str("Downgrade attempt blocked: ");
        let from = current_version.to_string();
        let to = metadata.version.to_string();
        m.append(from.as_str());
        m.append(" → ");
        m.append(to.as_str());
        m.append(" is not allowed");
        push_text(&mut errors, m);
    }
    let ghost e4 = texts(errors@);

    let publisher_check = str_eq(metadata.publisher_id.as_str(), publisher_key.publisher_id.as_str());
    if !publisher_check {
        let mut m = String::from_str("Publisher mismatch: metadata says '");
        m.append(metadata.publisher_id.as_str());
        m.append("', key belongs to '");
        m.append(publisher_key.publisher_id.as_str());
        m.append("'");
        push_text(&mut errors, m);
    }
    proof {
        let data = package_data@;
        let md = *metadata;
        let key = *publisher_key;
        let full = package_errors(data, md, key, *current_version);
        assert(full =~= texts(errors@));
    }
    let overall_valid = size_check && hash_check && dilithium_valid && ed25519_valid
        && version_check && publisher_check;
    Ok(VerificationReport {
        overall_valid,
        size_check,
        hash_check,
        computed_hash,
        expected_hash: copy_string(&metadata.sha3_256_hash),
        dilithium_valid,
        ed25519_valid,
        version_check,
        publisher_check,
        signature_details,
        errors,
    })
}

pub open spec fn status_icon_text(ok: bool) -> Seq<char> {
    if ok {
        "✓ PASS"@
    } else {
        "✗ FAIL"@
    }
}

/// The lines of a report summary.
pub open spec fn summary_lines(rep: VerificationReport) -> Seq<Seq<char>> {
    let head = seq![
        "═══ Verification Report ═══"@,
        "  File size:      "@ + status_icon_text(rep.size_check),
        "  SHA3-256 hash:  "@ + status_icon_text(rep.hash_check),
        "  Dilithium sig:  "@ + status_icon_text(rep.dilithium_valid),
        "  Ed25519 sig:    "@ + status_icon_text(rep.ed25519_valid),
        "  Version check:  "@ + status_icon_text(rep.version_check),
        "  Publisher:      "@ + status_icon_text(rep.publisher_check),
        "  ─────────────────────"@,
        "  OVERALL:        "@ + (if rep.overall_valid {
            "✅ PASSED"@
        } else {
            "❌ FAILED"@
        }),
    ];
    if rep.errors@.len() == 0 {
        head
    } else {
        head + seq![Seq::<char>::empty(), "  Errors:"@] + Seq::new(
            rep.errors@.len(),
            |i: int| "    ⚠ "@ + rep.errors@[i]@,
        )
    }
}

fn status_icon(ok: bool) -> (r: &'static str)
    ensures
        r@ == status_icon_text(ok),
{
    if ok {
        "✓ PASS"
    } else {
        "✗ FAIL"
    }
}

fn labelled(label: &str, value: &str) -> (r: String)
    ensures
        r@ == label@ + value@,
{
    let mut r = String::from_str(label);
    r.append(value);
    r
}

impl VerificationReport {
    /// A multi-line, human-readable summary.
    pub fn summary(&self) -> (r: String)
        ensures
            r@ == join_lines(summary_lines(*self)),
    {
        let mut lines: Vec<String> = Vec::new();
        push_text(&mut lines, String::from_str("═══ Verification Report ═══"));
        push_text(&mut lines, labelled("  File size:      ", status_icon(self.size_check)));
        push_text(&mut lines, labelled("  SHA3-256 hash:  ", status_icon(self.hash_check)));
        push_text(&mut lines, labelled("  Dilithium sig:  ", status_icon(self.dilithium_valid)));
        push_text(&mut lines, labelled("  Ed25519 sig:    ", status_icon(self.ed25519_valid)));
        push_text(&mut lines, labelled("  Version check:  ", status_icon(self.version_check)));
        push_text(&mut lines, labelled("  Publisher:      ", status_icon(self.publisher_check)));
        push_text(&mut lines, String::from_str("  ─────────────────────"));
        let verdict = if self.overall_valid {
            "✅ PASSED"
        } else {
            "❌ FAILED"
        };
        push_text(&mut lines, labelled("  OVERALL:        ", verdict));
        let ghost head = texts(lines@);
        if self.errors.len() > 0 {
            push_text(&mut lines, String::new());
            push_text(&mut lines, String::from_str("  Errors:"));
            let ghost base = texts(lines@);
            let mut i: usize = 0;
            while i < self.errors.len()
                invariant
                    i <= self.errors@.len(),
                    texts(lines@) == base + Seq::new(
                        i as nat,
                        |j: int| "    ⚠ "@ + self.errors@[j]@,
                    ),
                decreases self.errors.len() - i,
            {
                push_text(&mut lines, labelled("    ⚠ ", self.errors[i].as_str()));
                i = i + 1;
                assert(texts(lines@) =~= base + Seq::new(
                    i as nat,
                    |j: int| "    ⚠ "@ + self.errors@[j]@,
                ));
            }
        }
        assert(texts(lines@) =~= summary_lines(*self));
        join_with_newlines(&lines)
    }
}

} // verus!
