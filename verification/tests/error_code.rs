use quantun::error::CryptoError;
use quantun::error_code::ErrorCode;

#[test]
fn error_code_display() {
    assert_eq!(ErrorCode::Internal.as_str(), "INTERNAL");
    assert_eq!(ErrorCode::UnsupportedAlgorithm.as_str(), "UNSUPPORTED_ALGORITHM");
}

#[test]
fn error_code_as_str() {
    assert_eq!(ErrorCode::KeyExpired.as_str(), "KEY_EXPIRED");
}

#[test]
fn crypto_error_codes() {
    let e = CryptoError::KeyGeneration {
        algorithm: "x".to_owned(),
        reason: "y".to_owned(),
    };
    assert_eq!(e.error_code(), ErrorCode::KeyGenerationFailed);
    assert_eq!(
        CryptoError::Encapsulation("e".to_owned()).error_code(),
        ErrorCode::EncapsulationFailed
    );
    assert_eq!(
        CryptoError::Decapsulation("e".to_owned()).error_code(),
        ErrorCode::DecapsulationFailed
    );
    assert_eq!(
        CryptoError::Signing("e".to_owned()).error_code(),
        ErrorCode::SigningFailed
    );
    assert_eq!(
        CryptoError::Verification("e".to_owned()).error_code(),
        ErrorCode::VerificationFailed
    );
    assert_eq!(
        CryptoError::InvalidKeyMaterial("e".to_owned()).error_code(),
        ErrorCode::InvalidKeyMaterial
    );
    assert_eq!(
        CryptoError::UnsupportedAlgorithm("e".to_owned()).error_code(),
        ErrorCode::UnsupportedAlgorithm
    );
    assert_eq!(
        CryptoError::Serialization("e".to_owned()).error_code(),
        ErrorCode::Internal
    );
    assert_eq!(
        CryptoError::Rng("e".to_owned()).error_code(),
        ErrorCode::Internal
    );
}
