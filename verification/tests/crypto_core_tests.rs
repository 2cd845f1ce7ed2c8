use secure_update::classical::Ed25519KeyPair;
use secure_update::core_types::{CryptoError, HashAlgorithm, SignatureAlgorithm};
use secure_update::hashing::Hasher;
use secure_update::hybrid::{HybridKeyPair, UnifiedSigner};
use secure_update::pq::MlDsaKeyPair;

#[test]
fn test_sign_verify() {
    let kp = Ed25519KeyPair::generate().unwrap();
    let message = b"test message for signing";
    let signature = kp.sign(message).unwrap();
    assert!(kp.verify(message, &signature).unwrap());
}

#[test]
fn test_wrong_message_fails() {
    let kp = Ed25519KeyPair::generate().unwrap();
    let signature = kp.sign(b"correct message").unwrap();
    assert!(kp.verify(b"wrong message", &signature).is_err());
}

#[test]
fn test_wrong_key_fails() {
    let kp1 = Ed25519KeyPair::generate().unwrap();
    let kp2 = Ed25519KeyPair::generate().unwrap();
    let signature = kp1.sign(b"message").unwrap();
    assert!(kp2.verify(b"message", &signature).is_err());
}

#[test]
fn test_pq_sign_verify() {
    let kp = MlDsaKeyPair::generate().unwrap();
    let message = b"post-quantum test message";
    let signature = kp.sign(message).unwrap();
    assert!(kp.verify(message, &signature).unwrap());
}

#[test]
fn test_pq_tampered_message() {
    let kp = MlDsaKeyPair::generate().unwrap();
    let signature = kp.sign(b"original").unwrap();
    assert!(kp.verify(b"tampered", &signature).is_err());
}

#[test]
fn test_hybrid_sign_verify() {
    let kp = HybridKeyPair::generate().unwrap();
    let message = b"hybrid security test";
    let signature = kp.sign(message).unwrap();
    assert!(kp.verify(message, &signature).unwrap());
}

#[test]
fn test_hybrid_tampered_fails() {
    let kp = HybridKeyPair::generate().unwrap();
    let signature = kp.sign(b"original message").unwrap();
    assert!(kp.verify(b"tampered message", &signature).is_err());
}

#[test]
fn test_hybrid_partial_signature_fails() {
    let kp = HybridKeyPair::generate().unwrap();
    let message = b"test message";
    let mut signature = kp.sign(message).unwrap();
    signature.classical_signature[0] ^= 0xFF;
    assert!(kp.verify(message, &signature).is_err());
}

#[test]
fn test_domain_separation() {
    let msg = b"test";
    let sep1 = HybridKeyPair::domain_separate(b"domain1", msg);
    let sep2 = HybridKeyPair::domain_separate(b"domain2", msg);
    assert_ne!(sep1, sep2);
}

#[test]
fn test_hash_consistency() {
    let data = b"Hello, KryptoUpdate!";
    let hash1 = Hasher::hash_bytes(&HashAlgorithm::Sha3_256, data);
    let hash2 = Hasher::hash_bytes(&HashAlgorithm::Sha3_256, data);
    assert_eq!(hash1, hash2);
}

#[test]
fn test_different_data_different_hash() {
    let hash1 = Hasher::hash_bytes(&HashAlgorithm::Blake3, b"data1");
    let hash2 = Hasher::hash_bytes(&HashAlgorithm::Blake3, b"data2");
    assert_ne!(hash1, hash2);
}

#[test]
fn domain_separation_layout() {
    assert_eq!(HybridKeyPair::domain_separate(b"ab", b"xy"), vec![b'a', b'b', 0u8, b'x', b'y']);
}

#[test]
fn hash_known_vectors() {
    assert_eq!(
        Hasher::hash_bytes(&HashAlgorithm::Blake3, b""),
        "af1349b9f5f9a1a6a0404dea36dcc9499bcb25c9adc112b7cc9a93cae41f3262"
    );
    assert_eq!(
        Hasher::hash_bytes(&HashAlgorithm::Sha3_512, b"abc"),
        "b751850b1a57168a5693cd924b6b096e08f621827444f70d884f5d0240d2712e10e116e9192af3c91a7ec57647e3934057340b4cf408d5a56592f8274eec53f0"
    );
}

#[test]
fn file_hash_check_reports_both_digests() {
    let data = b"file contents";
    let good = Hasher::hash_bytes(&HashAlgorithm::Sha3_256, data);
    assert!(Hasher::verify_file_hash(&HashAlgorithm::Sha3_256, data, &good).unwrap());
    match Hasher::verify_file_hash(&HashAlgorithm::Sha3_256, data, "00") {
        Err(CryptoError::HashMismatch { expected, actual }) => {
            assert_eq!(expected, "00");
            assert_eq!(actual, good);
        }
        _ => panic!("expected a hash mismatch"),
    }
}

#[test]
fn key_ids_have_their_documented_form() {
    let ed = Ed25519KeyPair::generate().unwrap();
    assert_eq!(ed.key_id.len(), 16);
    let pq = MlDsaKeyPair::generate().unwrap();
    assert!(pq.key_id.starts_with("pq-"));
    assert_eq!(pq.key_id.len(), 19);
    assert_eq!(pq.public_key_size(), 1952);
    let hy = HybridKeyPair::generate().unwrap();
    assert_eq!(hy.key_id, format!("hybrid-{}-{}", &hy.ed25519.key_id[..8], &hy.ml_dsa.key_id[3..11]));
}

#[test]
fn verify_only_pairs_check_lengths() {
    let e = Ed25519KeyPair::from_public_key(&[0u8; 31], "k").unwrap_err();
    assert_eq!(e.to_string(), "Invalid key format: Ed25519 public key must be 32 bytes");
    let e = MlDsaKeyPair::from_public_key(&[0u8; 10], "k").unwrap_err();
    assert_eq!(e.to_string(), "Invalid key format: Invalid ML-DSA-65 public key");
    let ed = Ed25519KeyPair::generate().unwrap();
    let verify_only = Ed25519KeyPair::from_public_key(&ed.public_key, "ed").unwrap();
    assert_eq!(verify_only.sign(b"m").unwrap_err().to_string(), "Invalid key format: No secret key available");
    assert_eq!(verify_only.verify(b"m", &[0u8; 10]).unwrap_err().to_string(), "Invalid key format: Invalid signature length");
    assert_eq!(
        verify_only.verify(b"m", &[0u8; 64]).unwrap_err().to_string(),
        "Signature verification failed"
    );
}

#[test]
fn hybrid_to_bytes_is_bincode() {
    let kp = HybridKeyPair::generate().unwrap();
    let sig = kp.sign(b"bytes").unwrap();
    let expected = bincode::serialize(&(sig.classical_signature.clone(), sig.pq_signature.clone(), 2u32)).unwrap();
    assert_eq!(sig.to_bytes(), expected);
}

#[test]
fn unified_signer_uses_the_requested_key() {
    let ed = Ed25519KeyPair::generate().unwrap();
    let sig = UnifiedSigner::sign(&SignatureAlgorithm::Ed25519, b"m", Some(&ed), None, None).unwrap();
    assert!(ed.verify(b"m", &sig).unwrap());
    let err = UnifiedSigner::sign(&SignatureAlgorithm::MlDsa65, b"m", Some(&ed), None, None).unwrap_err();
    assert_eq!(err.to_string(), "Invalid key format: ML-DSA key required");
    let err = UnifiedSigner::sign(&SignatureAlgorithm::HybridEd25519MlDsa65, b"m", None, None, None).unwrap_err();
    assert_eq!(err.to_string(), "Invalid key format: Hybrid key required");
}
