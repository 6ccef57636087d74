use quantun::algorithm::MlKemVariant;
use quantun::error::CryptoError;
use quantun::mlkem::MlKemKeyPair;

#[test]
fn mlkem_keygen_produces_keys() {
    for variant in [
        MlKemVariant::MlKem512,
        MlKemVariant::MlKem768,
        MlKemVariant::MlKem1024,
    ] {
        let kp = MlKemKeyPair::generate(variant).unwrap();
        assert!(
            !kp.public_key.is_empty(),
            "public key must not be empty for {}",
            variant.display_name()
        );
        assert!(
            !kp.secret_key.is_empty(),
            "secret key must not be empty for {}",
            variant.display_name()
        );
    }
}

#[test]
fn keygen_sizes_match_catalog() {
    for variant in [
        MlKemVariant::MlKem512,
        MlKemVariant::MlKem768,
        MlKemVariant::MlKem1024,
    ] {
        let kp = MlKemKeyPair::generate(variant).unwrap();
        let (pk_len, sk_len) = variant.key_sizes();
        assert_eq!(kp.public_key.len(), pk_len);
        assert_eq!(kp.secret_key.len(), sk_len);
    }
}

#[test]
fn encapsulate_decapsulate_round_trip_512() {
    let kp = MlKemKeyPair::generate(MlKemVariant::MlKem512).unwrap();
    let enc = kp.encapsulate().unwrap();
    let shared = kp.decapsulate(&enc.ciphertext).unwrap();
    assert_eq!(enc.shared_secret, shared);
}

#[test]
fn encapsulate_decapsulate_round_trip_768() {
    let kp = MlKemKeyPair::generate(MlKemVariant::MlKem768).unwrap();
    let enc = kp.encapsulate().unwrap();
    let shared = kp.decapsulate(&enc.ciphertext).unwrap();
    assert_eq!(enc.shared_secret, shared);
}

#[test]
fn encapsulate_decapsulate_round_trip_1024() {
    let kp = MlKemKeyPair::generate(MlKemVariant::MlKem1024).unwrap();
    let enc = kp.encapsulate().unwrap();
    let shared = kp.decapsulate(&enc.ciphertext).unwrap();
    assert_eq!(enc.shared_secret, shared);
}

#[test]
fn decapsulate_wrong_ciphertext_fails() {
    let kp = MlKemKeyPair::generate(MlKemVariant::MlKem512).unwrap();
    let result = kp.decapsulate(&[0u8; 10]);
    assert!(result.is_err());
    assert!(matches!(result, Err(CryptoError::Decapsulation(_))));
}

#[test]
fn different_keypairs_produce_different_shared_secrets() {
    let kp1 = MlKemKeyPair::generate(MlKemVariant::MlKem768).unwrap();
    let kp2 = MlKemKeyPair::generate(MlKemVariant::MlKem768).unwrap();

    let enc1 = kp1.encapsulate().unwrap();
    let enc2 = kp2.encapsulate().unwrap();

    assert_ne!(enc1.shared_secret, enc2.shared_secret);
}

#[test]
fn two_encapsulations_differ() {
    let kp = MlKemKeyPair::generate(MlKemVariant::MlKem768).unwrap();
    let enc1 = kp.encapsulate().unwrap();
    let enc2 = kp.encapsulate().unwrap();
    assert_ne!(enc1.ciphertext, enc2.ciphertext);
    assert_ne!(enc1.shared_secret, enc2.shared_secret);
}

#[test]
fn kem_middle_level_scenario() {
    let variant = MlKemVariant::MlKem768;
    let kp = MlKemKeyPair::generate(variant).unwrap();
    let enc = kp.encapsulate().unwrap();
    assert_eq!(enc.ciphertext.len(), variant.ciphertext_size());
    let shared = kp.decapsulate(&enc.ciphertext).unwrap();
    assert_eq!(shared, enc.shared_secret);
}

#[test]
fn encapsulate_with_truncated_public_key_fails() {
    let mut kp = MlKemKeyPair::generate(MlKemVariant::MlKem512).unwrap();
    kp.public_key.truncate(10);
    let result = kp.encapsulate();
    assert!(matches!(result, Err(CryptoError::Encapsulation(_))));
}

#[test]
fn generate_with_rng_ignores_caller_generator() {
    let mut rng = 7u64;
    let kp = MlKemKeyPair::generate_with_rng(MlKemVariant::MlKem512, &mut rng).unwrap();
    let (pk_len, _) = MlKemVariant::MlKem512.key_sizes();
    assert_eq!(kp.public_key.len(), pk_len);
}

#[test]
fn decapsulate_without_secret_errors() {
    let kp = MlKemKeyPair::generate(MlKemVariant::MlKem768).unwrap();
    let enc = kp.encapsulate().unwrap();
    let mut stored = kp.clone();
    stored.secret_key.clear();
    let result = stored.decapsulate(&enc.ciphertext);
    assert!(matches!(result, Err(CryptoError::InvalidKeyMaterial(_))));
}

#[test]
fn decapsulate_with_corrupted_secret_errors() {
    let kp = MlKemKeyPair::generate(MlKemVariant::MlKem512).unwrap();
    let enc = kp.encapsulate().unwrap();
    let mut stored = kp.clone();
    stored.secret_key.truncate(100);
    let result = stored.decapsulate(&enc.ciphertext);
    assert!(matches!(result, Err(CryptoError::Decapsulation(_))));
}
