//! Error taxonomy for cryptographic operations: a small closed set of kinds,
//! each mapping to exactly one platform-wide status code.

use vstd::prelude::*;

use crate::error_code::ErrorCode;

verus! {

/// Errors produced by cryptographic operations.
#[derive(Debug, Clone)]
pub enum CryptoError {
    KeyGeneration { algorithm: String, reason: String },
    Encapsulation(String),
    Decapsulation(String),
    Signing(String),
    Verification(String),
    InvalidKeyMaterial(String),
    UnsupportedAlgorithm(String),
    Serialization(String),
    Rng(String),
}

impl CryptoError {
    /// The platform status code each error kind maps onto.
    pub open spec fn spec_error_code(self) -> ErrorCode {
        match self {
            CryptoError::KeyGeneration { .. } => ErrorCode::KeyGenerationFailed,
            CryptoError::Encapsulation(_) => ErrorCode::EncapsulationFailed,
            CryptoError::Decapsulation(_) => ErrorCode::DecapsulationFailed,
            CryptoError::Signing(_) => ErrorCode::SigningFailed,
            CryptoError::Verification(_) => ErrorCode::VerificationFailed,
            CryptoError::InvalidKeyMaterial(_) => ErrorCode::InvalidKeyMaterial,
            CryptoError::UnsupportedAlgorithm(_) => ErrorCode::UnsupportedAlgorithm,
            CryptoError::Serialization(_) => ErrorCode::Internal,
            CryptoError::Rng(_) => ErrorCode::Internal,
        }
    }

    /// Map to a platform error code.
    pub fn error_code(&self) -> (r: ErrorCode)
        ensures
            r == self.spec_error_code(),
    {
        match self {
            CryptoError::KeyGeneration { .. } => ErrorCode::KeyGenerationFailed,
            CryptoError::Encapsulation(_) => ErrorCode::EncapsulationFailed,
            CryptoError::Decapsulation(_) => ErrorCode::DecapsulationFailed,
            CryptoError::Signing(_) => ErrorCode::SigningFailed,
            CryptoError::Verification(_) => ErrorCode::VerificationFailed,
            CryptoError::InvalidKeyMaterial(_) => ErrorCode::InvalidKeyMaterial,
            CryptoError::UnsupportedAlgorithm(_) => ErrorCode::UnsupportedAlgorithm,
            CryptoError::Serialization(_) => ErrorCode::Internal,
            CryptoError::Rng(_) => ErrorCode::Internal,
        }
    }
}

pub type CryptoResult<T> = Result<T, CryptoError>;

} // verus!
