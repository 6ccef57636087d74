use quantun::algorithm::MlDsaVariant;
use quantun::error::CryptoError;
use quantun::mldsa::{MlDsaKeyPair, MlDsaSignature};

#[test]
fn mldsa_keygen_produces_keys() {
    for variant in [
        MlDsaVariant::MlDsa44,
        MlDsaVariant::MlDsa65,
        MlDsaVariant::MlDsa87,
    ] {
        let kp = MlDsaKeyPair::generate(variant).unwrap();
        assert_eq!(
            kp.secret_key.len(),
            32,
            "seed should be 32 bytes for {}",
            variant.display_name()
        );
        assert!(
            !kp.public_key.is_empty(),
            "public key must not be empty for {}",
            variant.display_name()
        );
    }
}

#[test]
fn sign_verify_round_trip_44() {
    let kp = MlDsaKeyPair::generate(MlDsaVariant::MlDsa44).unwrap();
    let sig = kp.sign(b"hello quantum world").unwrap();
    assert!(kp.verify(b"hello quantum world", &sig).unwrap());
}

#[test]
fn sign_verify_round_trip_65() {
    let kp = MlDsaKeyPair::generate(MlDsaVariant::MlDsa65).unwrap();
    let sig = kp.sign(b"hello quantum world").unwrap();
    assert!(kp.verify(b"hello quantum world", &sig).unwrap());
}

#[test]
fn sign_verify_round_trip_87() {
    let kp = MlDsaKeyPair::generate(MlDsaVariant::MlDsa87).unwrap();
    let sig = kp.sign(b"hello quantum world").unwrap();
    assert!(kp.verify(b"hello quantum world", &sig).unwrap());
}

#[test]
fn verify_wrong_message_fails() {
    let kp = MlDsaKeyPair::generate(MlDsaVariant::MlDsa44).unwrap();
    let sig = kp.sign(b"original").unwrap();
    assert!(!kp.verify(b"tampered", &sig).unwrap());
}

#[test]
fn mldsa_case_flipped_message_fails() {
    let kp = MlDsaKeyPair::generate(MlDsaVariant::MlDsa65).unwrap();
    let sig = kp.sign(b"hello quantum world").unwrap();
    assert!(kp.verify(b"hello quantum world", &sig).unwrap());
    assert!(!kp.verify(b"hello quantum World", &sig).unwrap());
}

#[test]
fn mldsa_signature_correct_size() {
    let kp = MlDsaKeyPair::generate(MlDsaVariant::MlDsa87).unwrap();
    let sig = kp.sign(b"test").unwrap();
    assert_eq!(sig.signature.len(), MlDsaVariant::MlDsa87.signature_size());
}

#[test]
fn mldsa_variant_mismatch_errors() {
    let kp44 = MlDsaKeyPair::generate(MlDsaVariant::MlDsa44).unwrap();
    let sig65 = MlDsaSignature {
        signature: vec![0u8; MlDsaVariant::MlDsa65.signature_size()],
        variant: MlDsaVariant::MlDsa65,
    };
    assert!(kp44.verify(b"test", &sig65).is_err());
}

#[test]
fn keygen_matches_catalog_public_size() {
    for variant in [
        MlDsaVariant::MlDsa44,
        MlDsaVariant::MlDsa65,
        MlDsaVariant::MlDsa87,
    ] {
        let kp = MlDsaKeyPair::generate(variant).unwrap();
        let (pk_len, _) = variant.key_sizes();
        assert_eq!(kp.public_key.len(), pk_len);
    }
}

#[test]
fn sign_with_corrupted_seed_errors() {
    let mut kp = MlDsaKeyPair::generate(MlDsaVariant::MlDsa44).unwrap();
    kp.secret_key.truncate(16);
    let result = kp.sign(b"msg");
    assert!(matches!(result, Err(CryptoError::Signing(_))));
}

#[test]
fn signing_is_deterministic_from_seed() {
    let kp = MlDsaKeyPair::generate(MlDsaVariant::MlDsa44).unwrap();
    let sig1 = kp.sign(b"same message").unwrap();
    let sig2 = kp.sign(b"same message").unwrap();
    assert_eq!(sig1.signature, sig2.signature);
}

#[test]
fn mldsa_sign_without_secret_errors() {
    let mut kp = MlDsaKeyPair::generate(MlDsaVariant::MlDsa44).unwrap();
    kp.secret_key.clear();
    let result = kp.sign(b"msg");
    assert!(matches!(result, Err(CryptoError::InvalidKeyMaterial(_))));
}
