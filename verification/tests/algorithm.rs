use quantun::algorithm::{Algorithm, HybridVariant, KeyType, MlDsaVariant, MlKemVariant, SlhDsaVariant};

#[test]
fn algorithm_security_levels() {
    assert_eq!(Algorithm::MlKem(MlKemVariant::MlKem512).security_level(), 1);
    assert_eq!(Algorithm::MlKem(MlKemVariant::MlKem768).security_level(), 3);
    assert_eq!(Algorithm::MlKem(MlKemVariant::MlKem1024).security_level(), 5);
    assert_eq!(Algorithm::MlDsa(MlDsaVariant::MlDsa87).security_level(), 5);
}

#[test]
fn algorithm_key_types() {
    assert_eq!(
        Algorithm::MlKem(MlKemVariant::MlKem768).key_type(),
        KeyType::Kem
    );
    assert_eq!(
        Algorithm::MlDsa(MlDsaVariant::MlDsa65).key_type(),
        KeyType::Signature
    );
    assert_eq!(
        Algorithm::Hybrid(HybridVariant::X25519MlKem768).key_type(),
        KeyType::HybridKem
    );
}

#[test]
fn algorithm_display() {
    assert_eq!(
        Algorithm::MlKem(MlKemVariant::MlKem768).display_name(),
        "ML-KEM-768"
    );
    assert_eq!(
        Algorithm::Hybrid(HybridVariant::X25519MlKem768).display_name(),
        "X25519-ML-KEM-768"
    );
}

#[test]
fn catalog_published_sizes() {
    assert_eq!(MlKemVariant::MlKem512.key_sizes(), (800, 1632));
    assert_eq!(MlKemVariant::MlKem768.key_sizes(), (1184, 2400));
    assert_eq!(MlKemVariant::MlKem1024.key_sizes(), (1568, 3168));
    assert_eq!(MlKemVariant::MlKem512.ciphertext_size(), 768);
    assert_eq!(MlKemVariant::MlKem768.ciphertext_size(), 1088);
    assert_eq!(MlKemVariant::MlKem1024.ciphertext_size(), 1568);
    assert_eq!(MlDsaVariant::MlDsa44.key_sizes(), (1312, 2560));
    assert_eq!(MlDsaVariant::MlDsa65.key_sizes(), (1952, 4032));
    assert_eq!(MlDsaVariant::MlDsa87.key_sizes(), (2592, 4896));
    assert_eq!(MlDsaVariant::MlDsa44.signature_size(), 2420);
    assert_eq!(MlDsaVariant::MlDsa65.signature_size(), 3309);
    assert_eq!(MlDsaVariant::MlDsa87.signature_size(), 4627);
    assert_eq!(SlhDsaVariant::Sha2_128s.key_sizes(), (32, 64));
    assert_eq!(SlhDsaVariant::Sha2_192s.key_sizes(), (48, 96));
    assert_eq!(SlhDsaVariant::Sha2_256s.key_sizes(), (64, 128));
    assert_eq!(SlhDsaVariant::Sha2_128s.signature_size(), 7856);
    assert_eq!(SlhDsaVariant::Sha2_128f.signature_size(), 17088);
    assert_eq!(SlhDsaVariant::Sha2_192s.signature_size(), 16224);
    assert_eq!(SlhDsaVariant::Sha2_192f.signature_size(), 35664);
    assert_eq!(SlhDsaVariant::Sha2_256s.signature_size(), 29792);
    assert_eq!(SlhDsaVariant::Sha2_256f.signature_size(), 49856);
}

#[test]
fn variant_display_names() {
    assert_eq!(MlKemVariant::MlKem512.display_name(), "ML-KEM-512");
    assert_eq!(MlDsaVariant::MlDsa44.display_name(), "ML-DSA-44");
    assert_eq!(SlhDsaVariant::Sha2_256f.display_name(), "SLH-DSA-SHA2-256f");
    assert_eq!(HybridVariant::Ed25519MlDsa65.display_name(), "Ed25519-ML-DSA-65");
}
