use quantun::tls_config::{PqcCipherSuite, TlsConfig, TlsVersion};

#[test]
fn default_config_is_valid() {
    let cfg = TlsConfig::default();
    assert!(cfg.validate().is_ok());
    assert!(cfg.hybrid_mode);
    assert_eq!(cfg.min_tls_version, TlsVersion::Tls13);
}

#[test]
fn tls12_hybrid_is_invalid() {
    let cfg = TlsConfig {
        min_tls_version: TlsVersion::Tls12,
        hybrid_mode: true,
        ..TlsConfig::default()
    };
    assert!(cfg.validate().is_err());
}

#[test]
fn empty_algorithms_is_invalid() {
    let cfg = TlsConfig {
        preferred_algorithms: vec![],
        ..TlsConfig::default()
    };
    assert!(cfg.validate().is_err());
}

#[test]
fn hybrid_cipher_suites() {
    let cfg = TlsConfig::default();
    let suites = cfg.cipher_suites();
    assert_eq!(suites[0], PqcCipherSuite::Aes256GcmX25519MlKem768);
}

#[test]
fn non_hybrid_cipher_suites() {
    let cfg = TlsConfig {
        hybrid_mode: false,
        min_tls_version: TlsVersion::Tls13,
        ..TlsConfig::default()
    };
    let suites = cfg.cipher_suites();
    assert_eq!(suites, vec![PqcCipherSuite::Aes256GcmMlKem1024]);
}
