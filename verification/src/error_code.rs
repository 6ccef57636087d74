//! Platform-wide status codes: the fixed enumeration that every error kind
//! maps onto when it crosses an API or logging boundary.

use vstd::prelude::*;

verus! {

/// Platform-wide error codes.
#[derive(Debug, Clone, Copy, PartialEq, Eq, Hash, Structural)]
pub enum ErrorCode {
    // Generic
    Internal,
    InvalidArgument,
    NotFound,
    AlreadyExists,
    PermissionDenied,
    Unauthenticated,
    // Crypto
    UnsupportedAlgorithm,
    KeyGenerationFailed,
    EncapsulationFailed,
    DecapsulationFailed,
    SigningFailed,
    VerificationFailed,
    InvalidKeyMaterial,
    KeyExpired,
    KeyRevoked,
    // TLS
    TlsHandshakeFailed,
    CertificateInvalid,
    CertificateExpired,
    // Device
    DeviceNotProvisioned,
    DeviceOffline,
    FirmwareIncompatible,
    // Risk
    AssessmentFailed,
    ScanTimeout,
}

impl ErrorCode {
    /// The short string code for each status.
    pub open spec fn spec_as_str(self) -> Seq<char> {
        match self {
            ErrorCode::Internal => "INTERNAL"@,
            ErrorCode::InvalidArgument => "INVALID_ARGUMENT"@,
            ErrorCode::NotFound => "NOT_FOUND"@,
            ErrorCode::AlreadyExists => "ALREADY_EXISTS"@,
            ErrorCode::PermissionDenied => "PERMISSION_DENIED"@,
            ErrorCode::Unauthenticated => "UNAUTHENTICATED"@,
            ErrorCode::UnsupportedAlgorithm => "UNSUPPORTED_ALGORITHM"@,
            ErrorCode::KeyGenerationFailed => "KEY_GENERATION_FAILED"@,
            ErrorCode::EncapsulationFailed => "ENCAPSULATION_FAILED"@,
            ErrorCode::DecapsulationFailed => "DECAPSULATION_FAILED"@,
            ErrorCode::SigningFailed => "SIGNING_FAILED"@,
            ErrorCode::VerificationFailed => "VERIFICATION_FAILED"@,
            ErrorCode::InvalidKeyMaterial => "INVALID_KEY_MATERIAL"@,
            ErrorCode::KeyExpired => "KEY_EXPIRED"@,
            ErrorCode::KeyRevoked => "KEY_REVOKED"@,
            ErrorCode::TlsHandshakeFailed => "TLS_HANDSHAKE_FAILED"@,
            ErrorCode::CertificateInvalid => "CERTIFICATE_INVALID"@,
            ErrorCode::CertificateExpired => "CERTIFICATE_EXPIRED"@,
            ErrorCode::DeviceNotProvisioned => "DEVICE_NOT_PROVISIONED"@,
            ErrorCode::DeviceOffline => "DEVICE_OFFLINE"@,
            ErrorCode::FirmwareIncompatible => "FIRMWARE_INCOMPATIBLE"@,
            ErrorCode::AssessmentFailed => "ASSESSMENT_FAILED"@,
            ErrorCode::ScanTimeout => "SCAN_TIMEOUT"@,
        }
    }

    /// Returns a short string code suitable for API responses.
    pub fn as_str(&self) -> (r: &'static str)
        ensures
            r@ == self.spec_as_str(),
    {
        match self {
            ErrorCode::Internal => "INTERNAL",
            ErrorCode::InvalidArgument => "INVALID_ARGUMENT",
            ErrorCode::NotFound => "NOT_FOUND",
            ErrorCode::AlreadyExists => "ALREADY_EXISTS",
            ErrorCode::PermissionDenied => "PERMISSION_DENIED",
            ErrorCode::Unauthenticated => "UNAUTHENTICATED",
            ErrorCode::UnsupportedAlgorithm => "UNSUPPORTED_ALGORITHM",
            ErrorCode::KeyGenerationFailed => "KEY_GENERATION_FAILED",
            ErrorCode::EncapsulationFailed => "ENCAPSULATION_FAILED",
            ErrorCode::DecapsulationFailed => "DECAPSULATION_FAILED",
            ErrorCode::SigningFailed => "SIGNING_FAILED",
            ErrorCode::VerificationFailed => "VERIFICATION_FAILED",
            ErrorCode::InvalidKeyMaterial => "INVALID_KEY_MATERIAL",
            ErrorCode::KeyExpired => "KEY_EXPIRED",
            ErrorCode::KeyRevoked => "KEY_REVOKED",
            ErrorCode::TlsHandshakeFailed => "TLS_HANDSHAKE_FAILED",
            ErrorCode::CertificateInvalid => "CERTIFICATE_INVALID",
            ErrorCode::CertificateExpired => "CERTIFICATE_EXPIRED",
            ErrorCode::DeviceNotProvisioned => "DEVICE_NOT_PROVISIONED",
            ErrorCode::DeviceOffline => "DEVICE_OFFLINE",
            ErrorCode::FirmwareIncompatible => "FIRMWARE_INCOMPATIBLE",
            ErrorCode::AssessmentFailed => "ASSESSMENT_FAILED",
            ErrorCode::ScanTimeout => "SCAN_TIMEOUT",
        }
    }
}

} // verus!
