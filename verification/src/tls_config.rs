//! TLS configuration for quantum-safe connections: preferred algorithms in
//! priority order, minimum protocol version, hybrid-mode selection, and the
//! consistency rules between them.

use vstd::prelude::*;

use crate::algorithm::{Algorithm, HybridVariant, MlKemVariant};

verus! {

/// Supported TLS protocol versions.
#[derive(Debug, Clone, Copy, PartialEq, Eq, Structural)]
pub enum TlsVersion {
    Tls12,
    Tls13,
}

/// Quantum-safe cipher suite identifier.
#[derive(Debug, Clone, Copy, PartialEq, Eq, Structural)]
pub enum PqcCipherSuite {
    /// TLS_AES_256_GCM_SHA384 with X25519+ML-KEM-768 key exchange.
    Aes256GcmX25519MlKem768,
    /// TLS_AES_128_GCM_SHA256 with X25519+ML-KEM-512 key exchange.
    Aes128GcmX25519MlKem512,
    /// TLS_AES_256_GCM_SHA384 with ML-KEM-1024 key exchange.
    Aes256GcmMlKem1024,
}

/// Errors arising from TLS configuration.
#[derive(Debug, Clone)]
pub enum TlsConfigError {
    NoAlgorithms,
    IncompatibleVersion(String),
    Certificate(String),
    Io(String),
}

/// TLS configuration for quantum-safe connections.
#[derive(Debug, Clone)]
pub struct TlsConfig {
    /// Path to the PEM-encoded certificate chain.
    pub cert_path: String,
    /// Path to the PEM-encoded private key.
    pub key_path: String,
    /// Optional path to a custom CA bundle for verification.
    pub ca_path: Option<String>,
    /// Preferred post-quantum algorithms for key exchange, in priority order.
    pub preferred_algorithms: Vec<Algorithm>,
    /// Minimum TLS version (defaults to 1.3).
    pub min_tls_version: TlsVersion,
    /// Whether to require mutual TLS (client certificates).
    pub mutual_tls: bool,
    /// Whether to enable hybrid key exchange (classical + PQC).
    pub hybrid_mode: bool,
}

impl TlsConfig {
    /// A configuration is self-consistent when at least one algorithm is
    /// preferred and hybrid key exchange is not combined with TLS 1.2.
    pub open spec fn spec_valid(self) -> bool {
        &&& self.preferred_algorithms@.len() > 0
        &&& !(self.min_tls_version == TlsVersion::Tls12 && self.hybrid_mode)
    }
}

impl Default for TlsConfig {
    /// The default quantum-safe configuration: TLS 1.3, hybrid key exchange
    /// first, pure ML-KEM-768 second.
    fn default() -> (r: Self)
        ensures
            r.cert_path@ == "certs/server.pem"@,
            r.key_path@ == "certs/server-key.pem"@,
            r.ca_path is None,
            r.preferred_algorithms@ == seq![
                Algorithm::Hybrid(HybridVariant::X25519MlKem768),
                Algorithm::MlKem(MlKemVariant::MlKem768),
            ],
            r.min_tls_version == TlsVersion::Tls13,
            !r.mutual_tls,
            r.hybrid_mode,
    {
        let preferred_algorithms: Vec<Algorithm> = vec![
            Algorithm::Hybrid(HybridVariant::X25519MlKem768),
            Algorithm::MlKem(MlKemVariant::MlKem768),
        ];
        proof {
            assert(preferred_algorithms@ =~= seq![
                Algorithm::Hybrid(HybridVariant::X25519MlKem768),
                Algorithm::MlKem(MlKemVariant::MlKem768),
            ]);
        }
        TlsConfig {
            cert_path: "certs/server.pem".to_owned(),
            key_path: "certs/server-key.pem".to_owned(),
            ca_path: None,
            preferred_algorithms,
            min_tls_version: TlsVersion::Tls13,
            mutual_tls: false,
            hybrid_mode: true,
        }
    }
}

impl TlsConfig {
    /// Create a config for development/testing with self-signed certs.
    pub fn development() -> (r: Self)
        ensures
            r.cert_path@ == "certs/dev.pem"@,
            r.key_path@ == "certs/dev-key.pem"@,
            r.ca_path is None,
            r.preferred_algorithms@ == seq![Algorithm::Hybrid(HybridVariant::X25519MlKem768)],
            r.min_tls_version == TlsVersion::Tls13,
            !r.mutual_tls,
            r.hybrid_mode,
    {
        let preferred_algorithms: Vec<Algorithm> = vec![
            Algorithm::Hybrid(HybridVariant::X25519MlKem768),
        ];
        proof {
            assert(preferred_algorithms@ =~= seq![
                Algorithm::Hybrid(HybridVariant::X25519MlKem768),
            ]);
        }
        TlsConfig {
            cert_path: "certs/dev.pem".to_owned(),
            key_path: "certs/dev-key.pem".to_owned(),
            ca_path: None,
            preferred_algorithms,
            min_tls_version: TlsVersion::Tls13,
            mutual_tls: false,
            hybrid_mode: true,
        }
    }

    /// Validate that the configuration is self-consistent: `Ok` exactly on
    /// the valid configurations, with the empty algorithm list reported
    /// before the version conflict.
    pub fn validate(&self) -> (r: Result<(), TlsConfigError>)
        ensures
            r is Ok <==> self.spec_valid(),
            self.preferred_algorithms@.len() == 0 ==> (r matches Err(e) && e is NoAlgorithms),
            self.preferred_algorithms@.len() > 0 && self.min_tls_version == TlsVersion::Tls12
                && self.hybrid_mode ==> (r matches Err(e) && e is IncompatibleVersion),
    {
        if self.preferred_algorithms.len() == 0 {
            return Err(TlsConfigError::NoAlgorithms);
        }
        if self.min_tls_version == TlsVersion::Tls12 && self.hybrid_mode {
            return Err(
                TlsConfigError::IncompatibleVersion(
                    "hybrid PQC key exchange requires TLS 1.3".to_owned(),
                ),
            );
        }
        Ok(())
    }

    /// Return the list of cipher suites implied by this configuration: the
    /// hybrid pair when hybrid mode is on, pure ML-KEM-1024 otherwise.
    pub fn cipher_suites(&self) -> (r: Vec<PqcCipherSuite>)
        ensures
            self.hybrid_mode ==> r@ == seq![
                PqcCipherSuite::Aes256GcmX25519MlKem768,
                PqcCipherSuite::Aes128GcmX25519MlKem512,
            ],
            !self.hybrid_mode ==> r@ == seq![PqcCipherSuite::Aes256GcmMlKem1024],
    {
        if self.hybrid_mode {
            let r: Vec<PqcCipherSuite> = vec![
                PqcCipherSuite::Aes256GcmX25519MlKem768,
                PqcCipherSuite::Aes128GcmX25519MlKem512,
            ];
            proof {
                assert(r@ =~= seq![
                    PqcCipherSuite::Aes256GcmX25519MlKem768,
                    PqcCipherSuite::Aes128GcmX25519MlKem512,
                ]);
            }
            r
        } else {
            let r: Vec<PqcCipherSuite> = vec![PqcCipherSuite::Aes256GcmMlKem1024];
            proof {
                assert(r@ =~= seq![PqcCipherSuite::Aes256GcmMlKem1024]);
            }
            r
        }
    }
}

} // verus!
