use quantun::algorithm::HybridVariant;
use quantun::error::CryptoError;
use quantun::hybrid::HybridKemKeyPair;

#[test]
fn hybrid_keygen() {
    let kp = HybridKemKeyPair::generate().unwrap();
    assert_eq!(kp.classical_public.len(), 32);
    assert_eq!(kp.variant, HybridVariant::X25519MlKem768);
    assert!(!kp.pqc_keypair.public_key.is_empty());
    assert!(!kp.pqc_keypair.secret_key.is_empty());
}

#[test]
fn hybrid_encapsulate_decapsulate() {
    let kp = HybridKemKeyPair::generate().unwrap();
    let enc = kp.encapsulate().unwrap();
    let shared = kp
        .decapsulate(&enc.classical_public, &enc.pqc_ciphertext)
        .unwrap();
    assert_eq!(enc.shared_secret, shared);
    assert_eq!(shared.len(), 32); // SHA-256 output
}

#[test]
fn different_encapsulations_produce_different_secrets() {
    let kp = HybridKemKeyPair::generate().unwrap();
    let enc1 = kp.encapsulate().unwrap();
    let enc2 = kp.encapsulate().unwrap();
    // Each encapsulation uses fresh ephemeral keys
    assert_ne!(enc1.shared_secret, enc2.shared_secret);
}

#[test]
fn missing_secret_key_errors() {
    let mut kp = HybridKemKeyPair::generate().unwrap();
    kp.classical_secret = None;
    let enc = kp.encapsulate().unwrap();
    assert!(kp
        .decapsulate(&enc.classical_public, &enc.pqc_ciphertext)
        .is_err());
}

#[test]
fn missing_secret_key_is_invalid_key_material() {
    let mut kp = HybridKemKeyPair::generate().unwrap();
    kp.classical_secret = None;
    let enc = kp.encapsulate().unwrap();
    let result = kp.decapsulate(&enc.classical_public, &enc.pqc_ciphertext);
    assert!(matches!(result, Err(CryptoError::InvalidKeyMaterial(_))));
}

#[test]
fn short_ephemeral_public_is_invalid_key_material() {
    let kp = HybridKemKeyPair::generate().unwrap();
    let enc = kp.encapsulate().unwrap();
    let result = kp.decapsulate(&enc.classical_public[..16], &enc.pqc_ciphertext);
    assert!(matches!(result, Err(CryptoError::InvalidKeyMaterial(_))));
}

#[test]
fn tampered_ciphertext_changes_or_fails() {
    let kp = HybridKemKeyPair::generate().unwrap();
    let enc = kp.encapsulate().unwrap();
    let mut ct = enc.pqc_ciphertext.clone();
    ct[0] ^= 0xff;
    match kp.decapsulate(&enc.classical_public, &ct) {
        Ok(shared) => assert_ne!(shared, enc.shared_secret),
        Err(e) => assert!(matches!(e, CryptoError::Decapsulation(_))),
    }
}

#[test]
fn short_classical_secret_is_invalid_key_material() {
    let mut kp = HybridKemKeyPair::generate().unwrap();
    let enc = kp.encapsulate().unwrap();
    kp.classical_secret = Some(vec![0u8; 16]);
    let result = kp.decapsulate(&enc.classical_public, &enc.pqc_ciphertext);
    assert!(matches!(result, Err(CryptoError::InvalidKeyMaterial(_))));
}

#[test]
fn absent_pqc_secret_is_invalid_key_material() {
    let mut kp = HybridKemKeyPair::generate().unwrap();
    let enc = kp.encapsulate().unwrap();
    kp.pqc_keypair.secret_key.clear();
    let result = kp.decapsulate(&enc.classical_public, &enc.pqc_ciphertext);
    assert!(matches!(result, Err(CryptoError::InvalidKeyMaterial(_))));
}
