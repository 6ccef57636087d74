//! Gateway TLS policy: policy levels, cipher-suite classification, the TLS
//! configuration each policy implies, and the enforcement decision applied
//! to each request.

use vstd::prelude::*;
use vstd::string::StringSliceAdditionalSpecFns;

use crate::algorithm::{Algorithm, MlDsaVariant, MlKemVariant};
use crate::text::{spec_contains, str_contains, str_eq};
use crate::tls_config::{TlsConfig, TlsVersion};

verus! {

/// How strictly the gateway requires post-quantum cipher suites.
#[derive(Debug, Clone, Copy, PartialEq, Eq, Structural)]
pub enum TlsPolicy {
    PqcOnly,
    PqcPreferred,
    Hybrid,
    ClassicalAllowed,
}

/// Errors arising from the gateway's TLS handling.
#[derive(Debug, Clone)]
pub enum TlsError {
    NoPqcCipherSuites,
    PolicyViolation(String),
    ConfigError(String),
}

/// What a completed TLS handshake looked like, as reported by the
/// termination layer.
#[derive(Debug, Clone)]
pub struct HandshakeInfo {
    pub cipher_suite: String,
    pub tls_version: String,
    pub kem_algorithm: Option<String>,
    pub sig_algorithm: Option<String>,
    pub is_pqc: bool,
    pub handshake_duration_ms: u64,
}

/// A cipher-suite name counts as post-quantum when it names one of the
/// post-quantum key-exchange or signature families.
pub open spec fn spec_is_pqc_suite(suite: Seq<u8>) -> bool {
    ||| spec_contains(suite, "ML-KEM".spec_bytes())
    ||| spec_contains(suite, "ML-DSA".spec_bytes())
    ||| spec_contains(suite, "SLH-DSA".spec_bytes())
    ||| spec_contains(suite, "KYBER".spec_bytes())
    ||| spec_contains(suite, "DILITHIUM".spec_bytes())
}

/// Whether a cipher-suite name, as reported by the TLS termination layer,
/// names a post-quantum suite.
pub fn classify_cipher_suite(cipher_suite: &str) -> (r: bool)
    ensures
        r == spec_is_pqc_suite(cipher_suite.spec_bytes()),
{
    str_contains(cipher_suite, "ML-KEM") || str_contains(cipher_suite, "ML-DSA") || str_contains(
        cipher_suite,
        "SLH-DSA",
    ) || str_contains(cipher_suite, "KYBER") || str_contains(cipher_suite, "DILITHIUM")
}

/// The algorithm preference list each policy selects.
pub open spec fn spec_policy_algorithms(policy: TlsPolicy) -> Seq<Algorithm> {
    match policy {
        TlsPolicy::PqcOnly => seq![
            Algorithm::MlKem(MlKemVariant::MlKem768),
            Algorithm::MlDsa(MlDsaVariant::MlDsa65),
        ],
        TlsPolicy::PqcPreferred => seq![
            Algorithm::MlKem(MlKemVariant::MlKem768),
            Algorithm::MlKem(MlKemVariant::MlKem1024),
            Algorithm::MlDsa(MlDsaVariant::MlDsa65),
        ],
        TlsPolicy::Hybrid => seq![Algorithm::MlKem(MlKemVariant::MlKem768)],
        TlsPolicy::ClassicalAllowed => Seq::empty(),
    }
}

/// Whether a policy enables hybrid key exchange.
pub open spec fn spec_policy_hybrid(policy: TlsPolicy) -> bool {
    policy == TlsPolicy::PqcPreferred || policy == TlsPolicy::Hybrid
}

/// Build the TLS configuration a policy implies, on the development
/// certificate paths. The classical-allowed policy selects no algorithms
/// and therefore fails validation with `ConfigError`; every other policy
/// yields a valid TLS 1.3 configuration.
pub fn build_tls_config(policy: TlsPolicy) -> (r: Result<TlsConfig, TlsError>)
    ensures
        r is Ok <==> policy != TlsPolicy::ClassicalAllowed,
        r matches Ok(c) ==> c.preferred_algorithms@ == spec_policy_algorithms(policy)
            && c.hybrid_mode == spec_policy_hybrid(policy) && c.min_tls_version == TlsVersion::Tls13
            && c.cert_path@ == "certs/dev.pem"@ && c.key_path@ == "certs/dev-key.pem"@
            && c.spec_valid(),
        r matches Err(e) ==> e is ConfigError,
{
    let mut config = TlsConfig::development();
    config.min_tls_version = TlsVersion::Tls13;

    match policy {
        TlsPolicy::PqcOnly => {
            let algs: Vec<Algorithm> = vec![
                Algorithm::MlKem(MlKemVariant::MlKem768),
                Algorithm::MlDsa(MlDsaVariant::MlDsa65),
            ];
            proof {
                assert(algs@ =~= spec_policy_algorithms(policy));
            }
            config.preferred_algorithms = algs;
            config.hybrid_mode = false;
        },
        TlsPolicy::PqcPreferred => {
            let algs: Vec<Algorithm> = vec![
                Algorithm::MlKem(MlKemVariant::MlKem768),
                Algorithm::MlKem(MlKemVariant::MlKem1024),
                Algorithm::MlDsa(MlDsaVariant::MlDsa65),
            ];
            proof {
                assert(algs@ =~= spec_policy_algorithms(policy));
            }
            config.preferred_algorithms = algs;
            config.hybrid_mode = true;
        },
        TlsPolicy::Hybrid => {
            let algs: Vec<Algorithm> = vec![Algorithm::MlKem(MlKemVariant::MlKem768)];
            proof {
                assert(algs@ =~= spec_policy_algorithms(policy));
            }
            config.preferred_algorithms = algs;
            config.hybrid_mode = true;
        },
        TlsPolicy::ClassicalAllowed => {
            let algs: Vec<Algorithm> = Vec::new();
            proof {
                assert(algs@ =~= spec_policy_algorithms(policy));
            }
            config.preferred_algorithms = algs;
            config.hybrid_mode = false;
        },
    }

    match config.validate() {
        Ok(()) => Ok(config),
        Err(_) => Err(TlsError::ConfigError("invalid TLS configuration".to_owned())),
    }
}

/// The enforcement decision the gateway applies to a request: under the
/// PQC-only policy a request on a classical cipher suite is rejected unless
/// it is for the health endpoint; every other policy lets it through.
pub open spec fn spec_enforcement_allows(
    policy: TlsPolicy,
    suite: Seq<u8>,
    path: Seq<u8>,
) -> bool {
    !(policy == TlsPolicy::PqcOnly && !spec_is_pqc_suite(suite) && path
        != "/health".spec_bytes())
}

/// Decide whether a request may proceed under the policy, given the
/// cipher-suite name reported by the TLS termination layer and the request
/// path.
pub fn enforce_pqc_policy(policy: TlsPolicy, cipher_suite: &str, path: &str) -> (allow: bool)
    ensures
        allow == spec_enforcement_allows(policy, cipher_suite.spec_bytes(), path.spec_bytes()),
{
    let is_pqc = classify_cipher_suite(cipher_suite);
    if policy == TlsPolicy::PqcOnly && !is_pqc && !str_eq(path, "/health") {
        false
    } else {
        true
    }
}

} // verus!
