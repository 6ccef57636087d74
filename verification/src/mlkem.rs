//! ML-KEM key lifecycle (FIPS 203): generate / encapsulate / decapsulate
//! over the three security levels, with length validation against the
//! algorithm catalog.
//!
//! The `ml-kem` crate performs the lattice mathematics; it is called through
//! trusted wrappers below. The decapsulation (secret) key is held in the
//! expanded FIPS 203 encoding, whose length is the catalog's published
//! secret size for the variant. Secret buffers are zeroized on drop.

use vstd::prelude::*;

use crate::algorithm::MlKemVariant;
use crate::error::{CryptoError, CryptoResult};
#[allow(deprecated)]
use ml_kem::ExpandedKeyEncoding;
use ml_kem::{Encapsulate, Decapsulate, Kem, KeyExport, TryKeyInit};
use zeroize::Zeroize;

verus! {

/// Whether `secret_key` and `public_key` are the expanded decapsulation-key
/// and encapsulation-key encodings of one FIPS 203 key pair, as key
/// generation produces them. A deterministic property of the bytes.
pub uninterp spec fn mlkem_keypair_ok(
    v: MlKemVariant,
    secret_key: Seq<u8>,
    public_key: Seq<u8>,
) -> bool;

/// Whether `secret_key` is accepted as an expanded FIPS 203 decapsulation
/// key: the embedded encapsulation key decodes and matches its stored hash.
/// A deterministic property of the bytes.
pub uninterp spec fn mlkem_secret_ok(v: MlKemVariant, secret_key: Seq<u8>) -> bool;

/// The shared secret that FIPS 203 decapsulation derives from an expanded
/// decapsulation key and a ciphertext. Deterministic; implicit rejection
/// makes it total in the ciphertext once the lengths are right.
pub uninterp spec fn mlkem_shared_of(
    v: MlKemVariant,
    secret_key: Seq<u8>,
    ciphertext: Seq<u8>,
) -> Seq<u8>;

/// What holds of every (ciphertext, shared secret) pair produced by
/// encapsulating against `public_key`: the sizes are the catalog's, and any
/// generated decapsulation key paired with `public_key` decapsulates the
/// ciphertext to exactly this shared secret (FIPS 203 correctness).
pub open spec fn mlkem_encapsulation_for(
    v: MlKemVariant,
    public_key: Seq<u8>,
    ciphertext: Seq<u8>,
    shared: Seq<u8>,
) -> bool {
    &&& ciphertext.len() == v.spec_ciphertext_size()
    &&& shared.len() == 32
    &&& forall|secret_key: Seq<u8>|
        mlkem_keypair_ok(v, secret_key, public_key) ==> #[trigger] mlkem_shared_of(
            v,
            secret_key,
            ciphertext,
        ) == shared
}

/// Relies on ml_kem::MlKem512::generate_keypair (the kem crate's
/// getrandom-backed OS entry point — the same OS CSPRNG as `os_random`) and
/// to_expanded_bytes, the 1632-byte FIPS 203 expanded encoding, which
/// from_expanded accepts back; the encapsulation key encodes to 800 bytes.
#[allow(deprecated)]
#[verifier::external_body]
fn mlkem_generate_512() -> (r: (Vec<u8>, Vec<u8>))
    ensures
        r.0@.len() == 1632,
        r.1@.len() == 800,
        mlkem_keypair_ok(MlKemVariant::MlKem512, r.0@, r.1@),
        mlkem_secret_ok(MlKemVariant::MlKem512, r.0@),
{
    let (dk, ek) = ml_kem::MlKem512::generate_keypair();
    (dk.to_expanded_bytes().to_vec(), ek.to_bytes().to_vec())
}

/// Relies on ml_kem::MlKem768::generate_keypair; see the 512 wrapper.
#[allow(deprecated)]
#[verifier::external_body]
fn mlkem_generate_768() -> (r: (Vec<u8>, Vec<u8>))
    ensures
        r.0@.len() == 2400,
        r.1@.len() == 1184,
        mlkem_keypair_ok(MlKemVariant::MlKem768, r.0@, r.1@),
        mlkem_secret_ok(MlKemVariant::MlKem768, r.0@),
{
    let (dk, ek) = ml_kem::MlKem768::generate_keypair();
    (dk.to_expanded_bytes().to_vec(), ek.to_bytes().to_vec())
}

/// Relies on ml_kem::MlKem1024::generate_keypair; see the 512 wrapper.
#[allow(deprecated)]
#[verifier::external_body]
fn mlkem_generate_1024() -> (r: (Vec<u8>, Vec<u8>))
    ensures
        r.0@.len() == 3168,
        r.1@.len() == 1568,
        mlkem_keypair_ok(MlKemVariant::MlKem1024, r.0@, r.1@),
        mlkem_secret_ok(MlKemVariant::MlKem1024, r.0@),
{
    let (dk, ek) = ml_kem::MlKem1024::generate_keypair();
    (dk.to_expanded_bytes().to_vec(), ek.to_bytes().to_vec())
}

/// Relies on EncapsulationKey::<MlKem512>::new_from_slice (fails on a wrong
/// length or an invalid encoding, and accepts every key that key generation
/// encoded) and encapsulate (fresh randomness from the kem crate's
/// getrandom-backed OS entry point); FIPS 203 correctness ties the returned
/// pair to the public key.
#[verifier::external_body]
fn mlkem_encapsulate_512(public_key: &[u8]) -> (r: Option<(Vec<u8>, Vec<u8>)>)
    ensures
        public_key@.len() != 800 ==> r is None,
        (exists|sk: Seq<u8>| #[trigger] mlkem_keypair_ok(MlKemVariant::MlKem512, sk, public_key@))
            ==> r is Some,
        r matches Some(p) ==> mlkem_encapsulation_for(
            MlKemVariant::MlKem512,
            public_key@,
            p.0@,
            p.1@,
        ),
{
    let ek = match ml_kem::EncapsulationKey::<ml_kem::MlKem512>::new_from_slice(public_key) {
        Ok(ek) => ek,
        Err(_) => return None,
    };
    let (ct, ss) = ek.encapsulate();
    Some((ct.to_vec(), ss.to_vec()))
}

/// Relies on EncapsulationKey::<MlKem768>; see the 512 wrapper.
#[verifier::external_body]
fn mlkem_encapsulate_768(public_key: &[u8]) -> (r: Option<(Vec<u8>, Vec<u8>)>)
    ensures
        public_key@.len() != 1184 ==> r is None,
        (exists|sk: Seq<u8>| #[trigger] mlkem_keypair_ok(MlKemVariant::MlKem768, sk, public_key@))
            ==> r is Some,
        r matches Some(p) ==> mlkem_encapsulation_for(
            MlKemVariant::MlKem768,
            public_key@,
            p.0@,
            p.1@,
        ),
{
    let ek = match ml_kem::EncapsulationKey::<ml_kem::MlKem768>::new_from_slice(public_key) {
        Ok(ek) => ek,
        Err(_) => return None,
    };
    let (ct, ss) = ek.encapsulate();
    Some((ct.to_vec(), ss.to_vec()))
}

/// Relies on EncapsulationKey::<MlKem1024>; see the 512 wrapper.
#[verifier::external_body]
fn mlkem_encapsulate_1024(public_key: &[u8]) -> (r: Option<(Vec<u8>, Vec<u8>)>)
    ensures
        public_key@.len() != 1568 ==> r is None,
        (exists|sk: Seq<u8>| #[trigger] mlkem_keypair_ok(MlKemVariant::MlKem1024, sk, public_key@))
            ==> r is Some,
        r matches Some(p) ==> mlkem_encapsulation_for(
            MlKemVariant::MlKem1024,
            public_key@,
            p.0@,
            p.1@,
        ),
{
    let ek = match ml_kem::EncapsulationKey::<ml_kem::MlKem1024>::new_from_slice(public_key) {
        Ok(ek) => ek,
        Err(_) => return None,
    };
    let (ct, ss) = ek.encapsulate();
    Some((ct.to_vec(), ss.to_vec()))
}

/// Relies on DecapsulationKey::<MlKem512>::from_expanded (validates the
/// 1632-byte expanded encoding: the embedded encapsulation key must decode
/// and match its stored hash) and decapsulate_slice, which errs exactly on
/// a wrong-length ciphertext and otherwise returns the 32-byte shared
/// secret determined by key and ciphertext (implicit rejection included, so
/// it is total there). The transient key copy is zeroized after use.
#[allow(deprecated)]
#[verifier::external_body]
fn mlkem_decapsulate_512(secret: &[u8], ciphertext: &[u8]) -> (r: Option<Vec<u8>>)
    requires
        secret@.len() == 1632,
    ensures
        r is Some <==> (mlkem_secret_ok(MlKemVariant::MlKem512, secret@) && ciphertext@.len()
            == 768),
        r matches Some(ss) ==> ss@ == mlkem_shared_of(MlKemVariant::MlKem512, secret@, ciphertext@)
            && ss@.len() == 32,
{
    let mut arr = match ml_kem::ExpandedDecapsulationKey::<ml_kem::MlKem512>::try_from(secret) {
        Ok(a) => a,
        Err(_) => return None,
    };
    let dk = match ml_kem::DecapsulationKey::<ml_kem::MlKem512>::from_expanded(&arr) {
        Ok(dk) => dk,
        Err(_) => return None,
    };
    arr.zeroize();
    dk.decapsulate_slice(ciphertext).ok().map(|ss| ss.to_vec())
}

/// Relies on DecapsulationKey::<MlKem768>; see the 512 wrapper.
#[allow(deprecated)]
#[verifier::external_body]
fn mlkem_decapsulate_768(secret: &[u8], ciphertext: &[u8]) -> (r: Option<Vec<u8>>)
    requires
        secret@.len() == 2400,
    ensures
        r is Some <==> (mlkem_secret_ok(MlKemVariant::MlKem768, secret@) && ciphertext@.len()
            == 1088),
        r matches Some(ss) ==> ss@ == mlkem_shared_of(MlKemVariant::MlKem768, secret@, ciphertext@)
            && ss@.len() == 32,
{
    let mut arr = match ml_kem::ExpandedDecapsulationKey::<ml_kem::MlKem768>::try_from(secret) {
        Ok(a) => a,
        Err(_) => return None,
    };
    let dk = match ml_kem::DecapsulationKey::<ml_kem::MlKem768>::from_expanded(&arr) {
        Ok(dk) => dk,
        Err(_) => return None,
    };
    arr.zeroize();
    dk.decapsulate_slice(ciphertext).ok().map(|ss| ss.to_vec())
}

/// Relies on DecapsulationKey::<MlKem1024>; see the 512 wrapper.
#[allow(deprecated)]
#[verifier::external_body]
fn mlkem_decapsulate_1024(secret: &[u8], ciphertext: &[u8]) -> (r: Option<Vec<u8>>)
    requires
        secret@.len() == 3168,
    ensures
        r is Some <==> (mlkem_secret_ok(MlKemVariant::MlKem1024, secret@) && ciphertext@.len()
            == 1568),
        r matches Some(ss) ==> ss@ == mlkem_shared_of(MlKemVariant::MlKem1024, secret@, ciphertext@)
            && ss@.len() == 32,
{
    let mut arr = match ml_kem::ExpandedDecapsulationKey::<ml_kem::MlKem1024>::try_from(secret) {
        Ok(a) => a,
        Err(_) => return None,
    };
    let dk = match ml_kem::DecapsulationKey::<ml_kem::MlKem1024>::from_expanded(&arr) {
        Ok(dk) => dk,
        Err(_) => return None,
    };
    arr.zeroize();
    dk.decapsulate_slice(ciphertext).ok().map(|ss| ss.to_vec())
}

/// ML-KEM key pair (FIPS 203).
///
/// Both keys are held in their FIPS 203 encodings with the catalog's
/// published lengths; the secret key is zeroized when the pair is dropped.
/// Serialized representations must omit it (see the serialization boundary
/// in the application layer).
#[derive(Debug, Clone)]
pub struct MlKemKeyPair {
    pub variant: MlKemVariant,
    /// Serialized encapsulation (public) key bytes.
    pub public_key: Vec<u8>,
    /// Decapsulation (secret) key bytes in expanded form.
    pub secret_key: Vec<u8>,
}

impl MlKemKeyPair {
    /// Key material has the catalog's published lengths for this variant.
    pub open spec fn wf(self) -> bool {
        &&& self.public_key@.len() == self.variant.spec_key_sizes().0
        &&& self.secret_key@.len() == self.variant.spec_key_sizes().1
    }
}

impl Drop for MlKemKeyPair {
    /// Relies on zeroize's Vec<u8> impl: the buffer is overwritten with
    /// zeros (and cleared) before the memory is released.
    #[verifier::external_body]
    fn drop(&mut self)
        opens_invariants none
        no_unwind
    {
        self.secret_key.zeroize();
    }
}

/// Result of an ML-KEM encapsulation: a ciphertext to send and the locally
/// derived shared secret. The shared secret is zeroized on drop.
#[derive(Debug, Clone)]
pub struct MlKemEncapsulated {
    pub ciphertext: Vec<u8>,
    pub shared_secret: Vec<u8>,
}

impl Drop for MlKemEncapsulated {
    /// Relies on zeroize's Vec<u8> impl; see MlKemKeyPair::drop.
    #[verifier::external_body]
    fn drop(&mut self)
        opens_invariants none
        no_unwind
    {
        self.shared_secret.zeroize();
    }
}

impl MlKemKeyPair {
    /// Generate a new ML-KEM key pair for the given variant using OS RNG.
    /// Both keys have the catalog's published lengths.
    pub fn generate(variant: MlKemVariant) -> (r: CryptoResult<Self>)
        ensures
            r is Ok,
            r matches Ok(kp) ==> kp.wf() && kp.variant == variant && mlkem_keypair_ok(
                variant,
                kp.secret_key@,
                kp.public_key@,
            ) && mlkem_secret_ok(variant, kp.secret_key@),
    {
        let (secret_key, public_key) = match variant {
            MlKemVariant::MlKem512 => mlkem_generate_512(),
            MlKemVariant::MlKem768 => mlkem_generate_768(),
            MlKemVariant::MlKem1024 => mlkem_generate_1024(),
        };
        Ok(MlKemKeyPair { variant, public_key, secret_key })
    }

    /// Generate a key pair using a caller-supplied RNG.
    ///
    /// The supplied generator is deliberately ignored and generation draws
    /// from the OS entropy path instead: mixing caller-provided entropy into
    /// post-quantum key material must not be possible.
    pub fn generate_with_rng<R>(variant: MlKemVariant, _rng: &mut R) -> (r: CryptoResult<Self>)
        ensures
            r is Ok,
            r matches Ok(kp) ==> kp.wf() && kp.variant == variant && mlkem_keypair_ok(
                variant,
                kp.secret_key@,
                kp.public_key@,
            ) && mlkem_secret_ok(variant, kp.secret_key@),
    {
        Self::generate(variant)
    }

    /// Encapsulate: produce a ciphertext and shared secret from the public
    /// key. Fails with `Encapsulation` if the stored public key does not
    /// pass the catalog's length check or the encoding validation; succeeds
    /// on every generated pair.
    pub fn encapsulate(&self) -> (r: CryptoResult<MlKemEncapsulated>)
        ensures
            r matches Ok(enc) ==> mlkem_encapsulation_for(
                self.variant,
                self.public_key@,
                enc.ciphertext@,
                enc.shared_secret@,
            ),
            self.public_key@.len() != self.variant.spec_key_sizes().0 ==> r is Err,
            mlkem_keypair_ok(self.variant, self.secret_key@, self.public_key@) ==> r is Ok,
            r matches Err(e) ==> e is Encapsulation,
    {
        let res = match self.variant {
            MlKemVariant::MlKem512 => mlkem_encapsulate_512(self.public_key.as_slice()),
            MlKemVariant::MlKem768 => mlkem_encapsulate_768(self.public_key.as_slice()),
            MlKemVariant::MlKem1024 => mlkem_encapsulate_1024(self.public_key.as_slice()),
        };
        match res {
            Some((ciphertext, shared_secret)) => Ok(
                MlKemEncapsulated { ciphertext, shared_secret },
            ),
            None => Err(CryptoError::Encapsulation("invalid ML-KEM encapsulation key".to_owned())),
        }
    }

    /// Decapsulate: recover the shared secret from a ciphertext using the
    /// secret key. An absent (empty) secret — the state of every
    /// deserialized pair — fails with `InvalidKeyMaterial` before any
    /// cryptographic work; a mis-sized or malformed key or a mis-sized
    /// ciphertext fails with `Decapsulation`. A well-formed ciphertext is
    /// never silently turned into a garbage secret by this layer.
    pub fn decapsulate(&self, ciphertext: &[u8]) -> (r: CryptoResult<Vec<u8>>)
        ensures
            r is Ok <==> (self.secret_key@.len() == self.variant.spec_key_sizes().1
                && mlkem_secret_ok(self.variant, self.secret_key@) && ciphertext@.len()
                == self.variant.spec_ciphertext_size()),
            r matches Ok(ss) ==> ss@ == mlkem_shared_of(self.variant, self.secret_key@, ciphertext@)
                && ss@.len() == 32,
            self.secret_key@.len() == 0 ==> (r matches Err(e) && e is InvalidKeyMaterial),
            self.secret_key@.len() != 0 && self.secret_key@.len()
                != self.variant.spec_key_sizes().1 ==> (r matches Err(e) && e is Decapsulation),
            self.secret_key@.len() == self.variant.spec_key_sizes().1 && !(mlkem_secret_ok(
                self.variant,
                self.secret_key@,
            ) && ciphertext@.len() == self.variant.spec_ciphertext_size()) ==> (r matches Err(e)
                && e is Decapsulation),
    {
        if self.secret_key.len() == 0 {
            return Err(CryptoError::InvalidKeyMaterial("secret key not available".to_owned()));
        }
        let (_, sk_len) = self.variant.key_sizes();
        if self.secret_key.len() != sk_len {
            return Err(CryptoError::Decapsulation("invalid ML-KEM decapsulation key".to_owned()));
        }
        let res = match self.variant {
            MlKemVariant::MlKem512 => mlkem_decapsulate_512(self.secret_key.as_slice(), ciphertext),
            MlKemVariant::MlKem768 => mlkem_decapsulate_768(self.secret_key.as_slice(), ciphertext),
            MlKemVariant::MlKem1024 => mlkem_decapsulate_1024(
                self.secret_key.as_slice(),
                ciphertext,
            ),
        };
        match res {
            Some(ss) => Ok(ss),
            None => Err(CryptoError::Decapsulation("ML-KEM decapsulation failed".to_owned())),
        }
    }
}

/// KEM round trip: any generated decapsulation key paired with the public
/// key an encapsulation was made against recovers exactly that
/// encapsulation's shared secret.
pub proof fn lemma_mlkem_round_trip(
    v: MlKemVariant,
    secret_key: Seq<u8>,
    public_key: Seq<u8>,
    ciphertext: Seq<u8>,
    shared: Seq<u8>,
)
    requires
        mlkem_keypair_ok(v, secret_key, public_key),
        mlkem_encapsulation_for(v, public_key, ciphertext, shared),
    ensures
        mlkem_shared_of(v, secret_key, ciphertext) == shared,
{
}

} // verus!
