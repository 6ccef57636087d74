//! Algorithm catalog: the closed sets of supported variants and their
//! published parameters — key sizes, ciphertext and signature sizes, NIST
//! security levels and display names. All lookups are total functions over
//! closed enumerations; every executable lookup is pinned to its table entry.

use vstd::prelude::*;

verus! {

/// Module-lattice KEM variants (FIPS 203), by security level.
#[derive(Debug, Clone, Copy, PartialEq, Eq, Hash, Structural)]
pub enum MlKemVariant {
    MlKem512,
    MlKem768,
    MlKem1024,
}

/// Module-lattice digital signature variants (FIPS 204), by security level.
#[derive(Debug, Clone, Copy, PartialEq, Eq, Hash, Structural)]
pub enum MlDsaVariant {
    MlDsa44,
    MlDsa65,
    MlDsa87,
}

/// Stateless hash-based signature variants (FIPS 205). The `s` parameter
/// sets trade a smaller signature for slower signing; the `f` sets are the
/// faster, larger counterparts.
#[derive(Debug, Clone, Copy, PartialEq, Eq, Hash, Structural)]
pub enum SlhDsaVariant {
    Sha2_128s,
    Sha2_128f,
    Sha2_192s,
    Sha2_192f,
    Sha2_256s,
    Sha2_256f,
}

/// Hybrid algorithms combining one classical and one post-quantum scheme.
#[derive(Debug, Clone, Copy, PartialEq, Eq, Hash, Structural)]
pub enum HybridVariant {
    X25519MlKem768,
    Ed25519MlDsa65,
}

/// Top-level enumeration covering every supported algorithm.
#[derive(Debug, Clone, Copy, PartialEq, Eq, Hash, Structural)]
pub enum Algorithm {
    MlKem(MlKemVariant),
    MlDsa(MlDsaVariant),
    SlhDsa(SlhDsaVariant),
    Hybrid(HybridVariant),
}

/// The type of a cryptographic key.
#[derive(Debug, Clone, Copy, PartialEq, Eq, Hash, Structural)]
pub enum KeyType {
    Kem,
    Signature,
    HybridKem,
    HybridSignature,
}

/// Permitted usages for a key.
#[derive(Debug, Clone, Copy, PartialEq, Eq, Hash, Structural)]
pub enum KeyUsage {
    Encrypt,
    Sign,
    KeyAgreement,
    Wrap,
}

impl Algorithm {
    /// The key type implied by an algorithm.
    pub open spec fn spec_key_type(self) -> KeyType {
        match self {
            Algorithm::MlKem(_) => KeyType::Kem,
            Algorithm::MlDsa(_) => KeyType::Signature,
            Algorithm::SlhDsa(_) => KeyType::Signature,
            Algorithm::Hybrid(HybridVariant::X25519MlKem768) => KeyType::HybridKem,
            Algorithm::Hybrid(HybridVariant::Ed25519MlDsa65) => KeyType::HybridSignature,
        }
    }

    /// Returns the key type implied by this algorithm.
    pub fn key_type(&self) -> (r: KeyType)
        ensures
            r == self.spec_key_type(),
    {
        match self {
            Algorithm::MlKem(_) => KeyType::Kem,
            Algorithm::MlDsa(_) | Algorithm::SlhDsa(_) => KeyType::Signature,
            Algorithm::Hybrid(HybridVariant::X25519MlKem768) => KeyType::HybridKem,
            Algorithm::Hybrid(HybridVariant::Ed25519MlDsa65) => KeyType::HybridSignature,
        }
    }

    /// NIST security level (1 through 5).
    pub open spec fn spec_security_level(self) -> u8 {
        match self {
            Algorithm::MlKem(MlKemVariant::MlKem512) => 1,
            Algorithm::MlKem(MlKemVariant::MlKem768) => 3,
            Algorithm::MlKem(MlKemVariant::MlKem1024) => 5,
            Algorithm::MlDsa(MlDsaVariant::MlDsa44) => 2,
            Algorithm::MlDsa(MlDsaVariant::MlDsa65) => 3,
            Algorithm::MlDsa(MlDsaVariant::MlDsa87) => 5,
            Algorithm::SlhDsa(SlhDsaVariant::Sha2_128s) => 1,
            Algorithm::SlhDsa(SlhDsaVariant::Sha2_128f) => 1,
            Algorithm::SlhDsa(SlhDsaVariant::Sha2_192s) => 3,
            Algorithm::SlhDsa(SlhDsaVariant::Sha2_192f) => 3,
            Algorithm::SlhDsa(SlhDsaVariant::Sha2_256s) => 5,
            Algorithm::SlhDsa(SlhDsaVariant::Sha2_256f) => 5,
            Algorithm::Hybrid(HybridVariant::X25519MlKem768) => 3,
            Algorithm::Hybrid(HybridVariant::Ed25519MlDsa65) => 3,
        }
    }

    /// NIST security level (1 through 5).
    pub fn security_level(&self) -> (r: u8)
        ensures
            r == self.spec_security_level(),
            1 <= r <= 5,
    {
        match self {
            Algorithm::MlKem(MlKemVariant::MlKem512) => 1,
            Algorithm::MlKem(MlKemVariant::MlKem768) => 3,
            Algorithm::MlKem(MlKemVariant::MlKem1024) => 5,
            Algorithm::MlDsa(MlDsaVariant::MlDsa44) => 2,
            Algorithm::MlDsa(MlDsaVariant::MlDsa65) => 3,
            Algorithm::MlDsa(MlDsaVariant::MlDsa87) => 5,
            Algorithm::SlhDsa(v) => match v {
                SlhDsaVariant::Sha2_128s | SlhDsaVariant::Sha2_128f => 1,
                SlhDsaVariant::Sha2_192s | SlhDsaVariant::Sha2_192f => 3,
                SlhDsaVariant::Sha2_256s | SlhDsaVariant::Sha2_256f => 5,
            },
            Algorithm::Hybrid(HybridVariant::X25519MlKem768) => 3,
            Algorithm::Hybrid(HybridVariant::Ed25519MlDsa65) => 3,
        }
    }

    /// Human-readable name of the algorithm.
    pub fn display_name(&self) -> (r: String)
        ensures
            r@ == match *self {
                Algorithm::MlKem(v) => v.spec_display_name(),
                Algorithm::MlDsa(v) => v.spec_display_name(),
                Algorithm::SlhDsa(v) => v.spec_display_name(),
                Algorithm::Hybrid(v) => v.spec_display_name(),
            },
    {
        match self {
            Algorithm::MlKem(v) => v.display_name(),
            Algorithm::MlDsa(v) => v.display_name(),
            Algorithm::SlhDsa(v) => v.display_name(),
            Algorithm::Hybrid(v) => v.display_name(),
        }
    }
}

impl MlKemVariant {
    /// Published (public key, secret key) byte lengths; the secret key is the
    /// expanded decapsulation-key encoding of FIPS 203.
    pub open spec fn spec_key_sizes(self) -> (usize, usize) {
        match self {
            MlKemVariant::MlKem512 => (800usize, 1632usize),
            MlKemVariant::MlKem768 => (1184usize, 2400usize),
            MlKemVariant::MlKem1024 => (1568usize, 3168usize),
        }
    }

    /// Returns (public_key_bytes, secret_key_bytes) per NIST spec.
    pub fn key_sizes(&self) -> (r: (usize, usize))
        ensures
            r == self.spec_key_sizes(),
    {
        match self {
            MlKemVariant::MlKem512 => (800, 1632),
            MlKemVariant::MlKem768 => (1184, 2400),
            MlKemVariant::MlKem1024 => (1568, 3168),
        }
    }

    /// Ciphertext length in bytes.
    pub open spec fn spec_ciphertext_size(self) -> usize {
        match self {
            MlKemVariant::MlKem512 => 768usize,
            MlKemVariant::MlKem768 => 1088usize,
            MlKemVariant::MlKem1024 => 1568usize,
        }
    }

    /// Ciphertext size in bytes.
    pub fn ciphertext_size(&self) -> (r: usize)
        ensures
            r == self.spec_ciphertext_size(),
    {
        match self {
            MlKemVariant::MlKem512 => 768,
            MlKemVariant::MlKem768 => 1088,
            MlKemVariant::MlKem1024 => 1568,
        }
    }

    /// Name of the variant.
    pub open spec fn spec_display_name(self) -> Seq<char> {
        match self {
            MlKemVariant::MlKem512 => "ML-KEM-512"@,
            MlKemVariant::MlKem768 => "ML-KEM-768"@,
            MlKemVariant::MlKem1024 => "ML-KEM-1024"@,
        }
    }

    /// Human-readable name of the variant.
    pub fn display_name(&self) -> (r: String)
        ensures
            r@ == self.spec_display_name(),
    {
        match self {
            MlKemVariant::MlKem512 => "ML-KEM-512".to_owned(),
            MlKemVariant::MlKem768 => "ML-KEM-768".to_owned(),
            MlKemVariant::MlKem1024 => "ML-KEM-1024".to_owned(),
        }
    }
}

impl MlDsaVariant {
    /// Published (public key, secret key) byte lengths; the secret key is the
    /// expanded signing-key encoding of FIPS 204.
    pub open spec fn spec_key_sizes(self) -> (usize, usize) {
        match self {
            MlDsaVariant::MlDsa44 => (1312usize, 2560usize),
            MlDsaVariant::MlDsa65 => (1952usize, 4032usize),
            MlDsaVariant::MlDsa87 => (2592usize, 4896usize),
        }
    }

    /// Returns (public_key_bytes, secret_key_bytes) per NIST spec.
    pub fn key_sizes(&self) -> (r: (usize, usize))
        ensures
            r == self.spec_key_sizes(),
    {
        match self {
            MlDsaVariant::MlDsa44 => (1312, 2560),
            MlDsaVariant::MlDsa65 => (1952, 4032),
            MlDsaVariant::MlDsa87 => (2592, 4896),
        }
    }

    /// Signature length in bytes.
    pub open spec fn spec_signature_size(self) -> usize {
        match self {
            MlDsaVariant::MlDsa44 => 2420usize,
            MlDsaVariant::MlDsa65 => 3309usize,
            MlDsaVariant::MlDsa87 => 4627usize,
        }
    }

    /// Signature size in bytes.
    pub fn signature_size(&self) -> (r: usize)
        ensures
            r == self.spec_signature_size(),
    {
        match self {
            MlDsaVariant::MlDsa44 => 2420,
            MlDsaVariant::MlDsa65 => 3309,
            MlDsaVariant::MlDsa87 => 4627,
        }
    }

    /// Name of the variant.
    pub open spec fn spec_display_name(self) -> Seq<char> {
        match self {
            MlDsaVariant::MlDsa44 => "ML-DSA-44"@,
            MlDsaVariant::MlDsa65 => "ML-DSA-65"@,
            MlDsaVariant::MlDsa87 => "ML-DSA-87"@,
        }
    }

    /// Human-readable name of the variant.
    pub fn display_name(&self) -> (r: String)
        ensures
            r@ == self.spec_display_name(),
    {
        match self {
            MlDsaVariant::MlDsa44 => "ML-DSA-44".to_owned(),
            MlDsaVariant::MlDsa65 => "ML-DSA-65".to_owned(),
            MlDsaVariant::MlDsa87 => "ML-DSA-87".to_owned(),
        }
    }
}

impl SlhDsaVariant {
    /// Published (public key, secret key) byte lengths per FIPS 205.
    pub open spec fn spec_key_sizes(self) -> (usize, usize) {
        match self {
            SlhDsaVariant::Sha2_128s => (32usize, 64usize),
            SlhDsaVariant::Sha2_128f => (32usize, 64usize),
            SlhDsaVariant::Sha2_192s => (48usize, 96usize),
            SlhDsaVariant::Sha2_192f => (48usize, 96usize),
            SlhDsaVariant::Sha2_256s => (64usize, 128usize),
            SlhDsaVariant::Sha2_256f => (64usize, 128usize),
        }
    }

    /// Returns (public_key_bytes, secret_key_bytes) per NIST spec.
    pub fn key_sizes(&self) -> (r: (usize, usize))
        ensures
            r == self.spec_key_sizes(),
    {
        match self {
            SlhDsaVariant::Sha2_128s | SlhDsaVariant::Sha2_128f => (32, 64),
            SlhDsaVariant::Sha2_192s | SlhDsaVariant::Sha2_192f => (48, 96),
            SlhDsaVariant::Sha2_256s | SlhDsaVariant::Sha2_256f => (64, 128),
        }
    }

    /// Signature length in bytes.
    pub open spec fn spec_signature_size(self) -> usize {
        match self {
            SlhDsaVariant::Sha2_128s => 7856usize,
            SlhDsaVariant::Sha2_128f => 17088usize,
            SlhDsaVariant::Sha2_192s => 16224usize,
            SlhDsaVariant::Sha2_192f => 35664usize,
            SlhDsaVariant::Sha2_256s => 29792usize,
            SlhDsaVariant::Sha2_256f => 49856usize,
        }
    }

    /// Signature size in bytes. "s" variants are small/slow, "f" are fast/large.
    pub fn signature_size(&self) -> (r: usize)
        ensures
            r == self.spec_signature_size(),
    {
        match self {
            SlhDsaVariant::Sha2_128s => 7856,
            SlhDsaVariant::Sha2_128f => 17088,
            SlhDsaVariant::Sha2_192s => 16224,
            SlhDsaVariant::Sha2_192f => 35664,
            SlhDsaVariant::Sha2_256s => 29792,
            SlhDsaVariant::Sha2_256f => 49856,
        }
    }

    /// Whether this is a "small" (slower, smaller signature) parameter set.
    pub open spec fn spec_is_small(self) -> bool {
        match self {
            SlhDsaVariant::Sha2_128s => true,
            SlhDsaVariant::Sha2_192s => true,
            SlhDsaVariant::Sha2_256s => true,
            SlhDsaVariant::Sha2_128f => false,
            SlhDsaVariant::Sha2_192f => false,
            SlhDsaVariant::Sha2_256f => false,
        }
    }

    /// Whether this is the "small" (slower, smaller signature) variant.
    pub fn is_small(&self) -> (r: bool)
        ensures
            r == self.spec_is_small(),
    {
        matches!(
            self,
            SlhDsaVariant::Sha2_128s | SlhDsaVariant::Sha2_192s | SlhDsaVariant::Sha2_256s
        )
    }

    /// Name of the variant.
    pub open spec fn spec_display_name(self) -> Seq<char> {
        match self {
            SlhDsaVariant::Sha2_128s => "SLH-DSA-SHA2-128s"@,
            SlhDsaVariant::Sha2_128f => "SLH-DSA-SHA2-128f"@,
            SlhDsaVariant::Sha2_192s => "SLH-DSA-SHA2-192s"@,
            SlhDsaVariant::Sha2_192f => "SLH-DSA-SHA2-192f"@,
            SlhDsaVariant::Sha2_256s => "SLH-DSA-SHA2-256s"@,
            SlhDsaVariant::Sha2_256f => "SLH-DSA-SHA2-256f"@,
        }
    }

    /// Human-readable name of the variant.
    pub fn display_name(&self) -> (r: String)
        ensures
            r@ == self.spec_display_name(),
    {
        match self {
            SlhDsaVariant::Sha2_128s => "SLH-DSA-SHA2-128s".to_owned(),
            SlhDsaVariant::Sha2_128f => "SLH-DSA-SHA2-128f".to_owned(),
            SlhDsaVariant::Sha2_192s => "SLH-DSA-SHA2-192s".to_owned(),
            SlhDsaVariant::Sha2_192f => "SLH-DSA-SHA2-192f".to_owned(),
            SlhDsaVariant::Sha2_256s => "SLH-DSA-SHA2-256s".to_owned(),
            SlhDsaVariant::Sha2_256f => "SLH-DSA-SHA2-256f".to_owned(),
        }
    }
}

impl HybridVariant {
    /// Name of the variant.
    pub open spec fn spec_display_name(self) -> Seq<char> {
        match self {
            HybridVariant::X25519MlKem768 => "X25519-ML-KEM-768"@,
            HybridVariant::Ed25519MlDsa65 => "Ed25519-ML-DSA-65"@,
        }
    }

    /// Human-readable name of the variant.
    pub fn display_name(&self) -> (r: String)
        ensures
            r@ == self.spec_display_name(),
    {
        match self {
            HybridVariant::X25519MlKem768 => "X25519-ML-KEM-768".to_owned(),
            HybridVariant::Ed25519MlDsa65 => "Ed25519-ML-DSA-65".to_owned(),
        }
    }
}

} // verus!
