use quantun::algorithm::SlhDsaVariant;
use quantun::error::CryptoError;
use quantun::slhdsa::{SlhDsaKeyPair, SlhDsaSignature};

#[test]
fn keygen_correct_sizes() {
    let kp = SlhDsaKeyPair::generate(SlhDsaVariant::Sha2_128s).unwrap();
    let (pk_len, sk_len) = SlhDsaVariant::Sha2_128s.key_sizes();
    assert_eq!(kp.public_key.len(), pk_len);
    assert_eq!(kp.secret_key.len(), sk_len);
}

#[test]
fn sign_verify_round_trip_128s() {
    let kp = SlhDsaKeyPair::generate(SlhDsaVariant::Sha2_128s).unwrap();
    let sig = kp.sign(b"test message").unwrap();
    assert!(kp.verify(b"test message", &sig).unwrap());
}

#[test]
fn sign_verify_round_trip_128f() {
    let kp = SlhDsaKeyPair::generate(SlhDsaVariant::Sha2_128f).unwrap();
    let sig = kp.sign(b"fast variant test").unwrap();
    assert!(kp.verify(b"fast variant test", &sig).unwrap());
}

#[test]
fn verify_wrong_message() {
    let kp = SlhDsaKeyPair::generate(SlhDsaVariant::Sha2_128s).unwrap();
    let sig = kp.sign(b"correct").unwrap();
    assert!(!kp.verify(b"wrong", &sig).unwrap());
}

#[test]
fn slhdsa_signature_correct_size() {
    let kp = SlhDsaKeyPair::generate(SlhDsaVariant::Sha2_128s).unwrap();
    let sig = kp.sign(b"test").unwrap();
    assert_eq!(sig.signature.len(), SlhDsaVariant::Sha2_128s.signature_size());
}

#[test]
fn is_small_variant() {
    assert!(SlhDsaVariant::Sha2_128s.is_small());
    assert!(!SlhDsaVariant::Sha2_128f.is_small());
}

#[test]
fn slhdsa_variant_mismatch_errors() {
    let kp = SlhDsaKeyPair::generate(SlhDsaVariant::Sha2_128s).unwrap();
    let wrong_sig = SlhDsaSignature {
        signature: vec![0u8; SlhDsaVariant::Sha2_128f.signature_size()],
        variant: SlhDsaVariant::Sha2_128f,
    };
    assert!(kp.verify(b"test", &wrong_sig).is_err());
}

#[test]
fn slhdsa_sign_without_secret_errors() {
    let mut kp = SlhDsaKeyPair::generate(SlhDsaVariant::Sha2_128f).unwrap();
    kp.secret_key.clear();
    let result = kp.sign(b"msg");
    assert!(matches!(result, Err(CryptoError::InvalidKeyMaterial(_))));
}

#[test]
fn slhdsa_sign_with_corrupted_secret_errors() {
    let mut kp = SlhDsaKeyPair::generate(SlhDsaVariant::Sha2_128f).unwrap();
    kp.secret_key.truncate(32);
    let result = kp.sign(b"msg");
    assert!(matches!(result, Err(CryptoError::Signing(_))));
}
