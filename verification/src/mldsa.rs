//! ML-DSA key lifecycle (FIPS 204): generate / sign / verify over the three
//! security levels.
//!
//! The secret key is stored in its compact 32-byte seed form, never expanded
//! at rest; each signing call re-expands it. Signing is the deterministic
//! ML-DSA variant with an empty context, so a signature is a function of the
//! seed and the message. A variant mismatch between key and signature is a
//! caller error, reported as `Verification`, distinct from a signature that
//! simply does not match, which is a successful `false`.

use vstd::prelude::*;

use crate::algorithm::MlDsaVariant;
use crate::error::{CryptoError, CryptoResult};
use crate::rng::os_random;
use ml_dsa::{Keypair, Signer, Verifier};
use zeroize::Zeroize;

verus! {

/// The verifying (public) key bytes that FIPS 204 key generation derives
/// from a 32-byte seed. Deterministic in the seed.
pub uninterp spec fn mldsa_public_of(v: MlDsaVariant, seed: Seq<u8>) -> Seq<u8>;

/// Whether FIPS 204 verification accepts `sig` as a signature on `msg` under
/// the verifying key `public_key`. Deterministic in its arguments.
pub uninterp spec fn mldsa_verifies(
    v: MlDsaVariant,
    public_key: Seq<u8>,
    msg: Seq<u8>,
    sig: Seq<u8>,
) -> bool;

/// Whether `sig` is a structurally valid FIPS 204 signature encoding (the
/// length is right, the hint unpacks, the norm bound holds). Deterministic.
pub uninterp spec fn mldsa_sig_ok(v: MlDsaVariant, sig: Seq<u8>) -> bool;

/// The signature bytes the deterministic FIPS 204 signing variant (empty
/// context) produces from a 32-byte seed and a message. Deterministic, so
/// two signings of the same message with the same seed agree.
pub uninterp spec fn mldsa_sig_of(v: MlDsaVariant, seed: Seq<u8>, msg: Seq<u8>) -> Seq<u8>;

/// Relies on ml_dsa::SigningKey::<MlDsa44>::from_seed and
/// VerifyingKey::encode: key generation is deterministic in the 32-byte
/// seed and the verifying key encodes to 1312 bytes. The transient stack
/// copy of the seed is zeroized after use.
#[verifier::external_body]
fn mldsa_generate_44(seed: &[u8]) -> (r: Vec<u8>)
    requires
        seed@.len() == 32,
    ensures
        r@.len() == 1312,
        r@ == mldsa_public_of(MlDsaVariant::MlDsa44, seed@),
{
    let mut arr: [u8; 32] = seed.try_into().expect("seed length is checked by the caller");
    let sk = ml_dsa::SigningKey::<ml_dsa::MlDsa44>::from_seed(&arr.into());
    arr.zeroize();
    sk.verifying_key().encode().to_vec()
}

/// Relies on ml_dsa::SigningKey::<MlDsa65>; see the 44 wrapper.
#[verifier::external_body]
fn mldsa_generate_65(seed: &[u8]) -> (r: Vec<u8>)
    requires
        seed@.len() == 32,
    ensures
        r@.len() == 1952,
        r@ == mldsa_public_of(MlDsaVariant::MlDsa65, seed@),
{
    let mut arr: [u8; 32] = seed.try_into().expect("seed length is checked by the caller");
    let sk = ml_dsa::SigningKey::<ml_dsa::MlDsa65>::from_seed(&arr.into());
    arr.zeroize();
    sk.verifying_key().encode().to_vec()
}

/// Relies on ml_dsa::SigningKey::<MlDsa87>; see the 44 wrapper.
#[verifier::external_body]
fn mldsa_generate_87(seed: &[u8]) -> (r: Vec<u8>)
    requires
        seed@.len() == 32,
    ensures
        r@.len() == 2592,
        r@ == mldsa_public_of(MlDsaVariant::MlDsa87, seed@),
{
    let mut arr: [u8; 32] = seed.try_into().expect("seed length is checked by the caller");
    let sk = ml_dsa::SigningKey::<ml_dsa::MlDsa87>::from_seed(&arr.into());
    arr.zeroize();
    sk.verifying_key().encode().to_vec()
}

/// Relies on ml_dsa::SigningKey::<MlDsa44>::try_sign (the deterministic
/// ML-DSA variant with an empty context, infallible there): the signature
/// is a function of seed and message alone, encodes to 2420 bytes, decodes
/// back, and verifies under the seed's verifying key (FIPS 204
/// correctness).
#[verifier::external_body]
fn mldsa_sign_44(seed: &[u8], message: &[u8]) -> (r: Vec<u8>)
    requires
        seed@.len() == 32,
    ensures
        r@.len() == 2420,
        r@ == mldsa_sig_of(MlDsaVariant::MlDsa44, seed@, message@),
        mldsa_sig_ok(MlDsaVariant::MlDsa44, r@),
        mldsa_verifies(
            MlDsaVariant::MlDsa44,
            mldsa_public_of(MlDsaVariant::MlDsa44, seed@),
            message@,
            r@,
        ),
{
    let mut arr: [u8; 32] = seed.try_into().expect("seed length is checked by the caller");
    let sk = ml_dsa::SigningKey::<ml_dsa::MlDsa44>::from_seed(&arr.into());
    arr.zeroize();
    let sig = sk.try_sign(message).expect("empty-context signing cannot fail");
    sig.encode().to_vec()
}

/// Relies on ml_dsa::SigningKey::<MlDsa65>; see the 44 wrapper.
#[verifier::external_body]
fn mldsa_sign_65(seed: &[u8], message: &[u8]) -> (r: Vec<u8>)
    requires
        seed@.len() == 32,
    ensures
        r@.len() == 3309,
        r@ == mldsa_sig_of(MlDsaVariant::MlDsa65, seed@, message@),
        mldsa_sig_ok(MlDsaVariant::MlDsa65, r@),
        mldsa_verifies(
            MlDsaVariant::MlDsa65,
            mldsa_public_of(MlDsaVariant::MlDsa65, seed@),
            message@,
            r@,
        ),
{
    let mut arr: [u8; 32] = seed.try_into().expect("seed length is checked by the caller");
    let sk = ml_dsa::SigningKey::<ml_dsa::MlDsa65>::from_seed(&arr.into());
    arr.zeroize();
    let sig = sk.try_sign(message).expect("empty-context signing cannot fail");
    sig.encode().to_vec()
}

/// Relies on ml_dsa::SigningKey::<MlDsa87>; see the 44 wrapper.
#[verifier::external_body]
fn mldsa_sign_87(seed: &[u8], message: &[u8]) -> (r: Vec<u8>)
    requires
        seed@.len() == 32,
    ensures
        r@.len() == 4627,
        r@ == mldsa_sig_of(MlDsaVariant::MlDsa87, seed@, message@),
        mldsa_sig_ok(MlDsaVariant::MlDsa87, r@),
        mldsa_verifies(
            MlDsaVariant::MlDsa87,
            mldsa_public_of(MlDsaVariant::MlDsa87, seed@),
            message@,
            r@,
        ),
{
    let mut arr: [u8; 32] = seed.try_into().expect("seed length is checked by the caller");
    let sk = ml_dsa::SigningKey::<ml_dsa::MlDsa87>::from_seed(&arr.into());
    arr.zeroize();
    let sig = sk.try_sign(message).expect("empty-context signing cannot fail");
    sig.encode().to_vec()
}

/// Relies on EncodedVerifyingKey::try_from (fails exactly on a wrong
/// length), VerifyingKey::<MlDsa44>::decode (total at that length),
/// Signature::try_from (succeeds exactly on a structurally valid encoding)
/// and Verifier::verify, which accepts exactly the cryptographically valid
/// signatures on the message.
#[verifier::external_body]
fn mldsa_verify_44(public_key: &[u8], message: &[u8], sig: &[u8]) -> (r: Option<bool>)
    ensures
        r is Some <==> (public_key@.len() == 1312 && mldsa_sig_ok(MlDsaVariant::MlDsa44, sig@)),
        sig@.len() != 2420 ==> r is None,
        r matches Some(b) ==> b == mldsa_verifies(
            MlDsaVariant::MlDsa44,
            public_key@,
            message@,
            sig@,
        ),
{
    let vk_arr = match ml_dsa::EncodedVerifyingKey::<ml_dsa::MlDsa44>::try_from(public_key) {
        Ok(a) => a,
        Err(_) => return None,
    };
    let vk = ml_dsa::VerifyingKey::<ml_dsa::MlDsa44>::decode(&vk_arr);
    let sig = match ml_dsa::Signature::<ml_dsa::MlDsa44>::try_from(sig) {
        Ok(s) => s,
        Err(_) => return None,
    };
    Some(vk.verify(message, &sig).is_ok())
}

/// Relies on VerifyingKey::<MlDsa65>; see the 44 wrapper.
#[verifier::external_body]
fn mldsa_verify_65(public_key: &[u8], message: &[u8], sig: &[u8]) -> (r: Option<bool>)
    ensures
        r is Some <==> (public_key@.len() == 1952 && mldsa_sig_ok(MlDsaVariant::MlDsa65, sig@)),
        sig@.len() != 3309 ==> r is None,
        r matches Some(b) ==> b == mldsa_verifies(
            MlDsaVariant::MlDsa65,
            public_key@,
            message@,
            sig@,
        ),
{
    let vk_arr = match ml_dsa::EncodedVerifyingKey::<ml_dsa::MlDsa65>::try_from(public_key) {
        Ok(a) => a,
        Err(_) => return None,
    };
    let vk = ml_dsa::VerifyingKey::<ml_dsa::MlDsa65>::decode(&vk_arr);
    let sig = match ml_dsa::Signature::<ml_dsa::MlDsa65>::try_from(sig) {
        Ok(s) => s,
        Err(_) => return None,
    };
    Some(vk.verify(message, &sig).is_ok())
}

/// Relies on VerifyingKey::<MlDsa87>; see the 44 wrapper.
#[verifier::external_body]
fn mldsa_verify_87(public_key: &[u8], message: &[u8], sig: &[u8]) -> (r: Option<bool>)
    ensures
        r is Some <==> (public_key@.len() == 2592 && mldsa_sig_ok(MlDsaVariant::MlDsa87, sig@)),
        sig@.len() != 4627 ==> r is None,
        r matches Some(b) ==> b == mldsa_verifies(
            MlDsaVariant::MlDsa87,
            public_key@,
            message@,
            sig@,
        ),
{
    let vk_arr = match ml_dsa::EncodedVerifyingKey::<ml_dsa::MlDsa87>::try_from(public_key) {
        Ok(a) => a,
        Err(_) => return None,
    };
    let vk = ml_dsa::VerifyingKey::<ml_dsa::MlDsa87>::decode(&vk_arr);
    let sig = match ml_dsa::Signature::<ml_dsa::MlDsa87>::try_from(sig) {
        Ok(s) => s,
        Err(_) => return None,
    };
    Some(vk.verify(message, &sig).is_ok())
}

/// ML-DSA key pair (FIPS 204).
///
/// The secret key is the 32-byte seed from which the signing key is
/// re-derived on each signing call; it is zeroized when the pair is dropped
/// and must be omitted from any serialized representation.
#[derive(Debug, Clone)]
pub struct MlDsaKeyPair {
    pub variant: MlDsaVariant,
    /// Serialized verifying (public) key bytes.
    pub public_key: Vec<u8>,
    /// 32-byte seed from which the signing key is derived.
    pub secret_key: Vec<u8>,
}

impl MlDsaKeyPair {
    /// Key material has the lengths of its stored forms: the catalog's
    /// public-key size, and the 32-byte signing seed.
    pub open spec fn wf(self) -> bool {
        &&& self.public_key@.len() == self.variant.spec_key_sizes().0
        &&& self.secret_key@.len() == 32
    }
}

impl Drop for MlDsaKeyPair {
    /// Relies on zeroize's Vec<u8> impl: the buffer is overwritten with
    /// zeros (and cleared) before the memory is released.
    #[verifier::external_body]
    fn drop(&mut self)
        opens_invariants none
        no_unwind
    {
        self.secret_key.zeroize();
    }
}

/// An ML-DSA signature: no secret material.
#[derive(Debug, Clone)]
pub struct MlDsaSignature {
    pub signature: Vec<u8>,
    pub variant: MlDsaVariant,
}

impl MlDsaKeyPair {
    /// Generate a new ML-DSA key pair: a fresh 32-byte seed from the OS
    /// entropy source, expanded deterministically into the key pair.
    pub fn generate(variant: MlDsaVariant) -> (r: CryptoResult<Self>)
        ensures
            r is Ok,
            r matches Ok(kp) ==> kp.wf() && kp.variant == variant && kp.public_key@
                == mldsa_public_of(variant, kp.secret_key@),
    {
        let seed = os_random(32);
        let public_key = match variant {
            MlDsaVariant::MlDsa44 => mldsa_generate_44(seed.as_slice()),
            MlDsaVariant::MlDsa65 => mldsa_generate_65(seed.as_slice()),
            MlDsaVariant::MlDsa87 => mldsa_generate_87(seed.as_slice()),
        };
        Ok(MlDsaKeyPair { variant, public_key, secret_key: seed })
    }

    /// Generate with a caller-supplied RNG.
    ///
    /// The supplied generator is deliberately ignored and generation draws
    /// from the OS entropy path instead: mixing caller-provided entropy into
    /// post-quantum key material must not be possible.
    pub fn generate_with_rng<R>(variant: MlDsaVariant, _rng: &mut R) -> (r: CryptoResult<Self>)
        ensures
            r is Ok,
            r matches Ok(kp) ==> kp.wf() && kp.variant == variant && kp.public_key@
                == mldsa_public_of(variant, kp.secret_key@),
    {
        Self::generate(variant)
    }

    /// Sign a message, deterministically in the seed and the message. An
    /// absent (empty) seed - the state of every deserialized pair - fails
    /// with `InvalidKeyMaterial`; a mis-sized seed (structural corruption)
    /// fails with `Signing`. Otherwise the signature has the catalog's
    /// length and verifies under this seed's verifying key.
    pub fn sign(&self, message: &[u8]) -> (r: CryptoResult<MlDsaSignature>)
        ensures
            r is Ok <==> self.secret_key@.len() == 32,
            r matches Ok(sig) ==> sig.variant == self.variant && sig.signature@
                == mldsa_sig_of(self.variant, self.secret_key@, message@) && sig.signature@.len()
                == self.variant.spec_signature_size() && mldsa_sig_ok(self.variant, sig.signature@)
                && mldsa_verifies(
                self.variant,
                mldsa_public_of(self.variant, self.secret_key@),
                message@,
                sig.signature@,
            ),
            self.secret_key@.len() == 0 ==> (r matches Err(e) && e is InvalidKeyMaterial),
            self.secret_key@.len() != 0 && self.secret_key@.len() != 32 ==> (r matches Err(e)
                && e is Signing),
    {
        if self.secret_key.len() == 0 {
            return Err(CryptoError::InvalidKeyMaterial("secret key not available".to_owned()));
        }
        if self.secret_key.len() != 32 {
            return Err(CryptoError::Signing("invalid ML-DSA seed, expected 32 bytes".to_owned()));
        }
        let signature = match self.variant {
            MlDsaVariant::MlDsa44 => mldsa_sign_44(self.secret_key.as_slice(), message),
            MlDsaVariant::MlDsa65 => mldsa_sign_65(self.secret_key.as_slice(), message),
            MlDsaVariant::MlDsa87 => mldsa_sign_87(self.secret_key.as_slice(), message),
        };
        Ok(MlDsaSignature { signature, variant: self.variant })
    }

    /// Verify a signature against a message.
    ///
    /// A variant mismatch between key and signature is a caller error and
    /// fails with `Verification`, as does structurally invalid key or
    /// signature material. A structurally valid signature that simply does
    /// not match the message is a successful `Ok(false)`, never an error.
    pub fn verify(&self, message: &[u8], sig: &MlDsaSignature) -> (r: CryptoResult<bool>)
        ensures
            sig.variant != self.variant ==> r is Err,
            sig.variant == self.variant ==> (r is Ok <==> self.public_key@.len()
                == self.variant.spec_key_sizes().0 && mldsa_sig_ok(self.variant, sig.signature@)),
            r matches Ok(b) ==> b == mldsa_verifies(
                self.variant,
                self.public_key@,
                message@,
                sig.signature@,
            ),
            r matches Err(e) ==> e is Verification,
    {
        if sig.variant != self.variant {
            return Err(
                CryptoError::Verification("variant mismatch between key and signature".to_owned()),
            );
        }
        let res = match self.variant {
            MlDsaVariant::MlDsa44 => mldsa_verify_44(
                self.public_key.as_slice(),
                message,
                sig.signature.as_slice(),
            ),
            MlDsaVariant::MlDsa65 => mldsa_verify_65(
                self.public_key.as_slice(),
                message,
                sig.signature.as_slice(),
            ),
            MlDsaVariant::MlDsa87 => mldsa_verify_87(
                self.public_key.as_slice(),
                message,
                sig.signature.as_slice(),
            ),
        };
        match res {
            Some(b) => Ok(b),
            None => Err(CryptoError::Verification("invalid key or signature encoding".to_owned())),
        }
    }
}

/// Signature round trip: a signature stated valid under the verifying key
/// derived from a seed verifies under any public key equal to that derived
/// key — together with `sign`'s and `verify`'s contracts, signing with a key
/// pair and verifying with the same pair yields `true`.
pub proof fn lemma_mldsa_sign_verify(
    v: MlDsaVariant,
    seed: Seq<u8>,
    public_key: Seq<u8>,
    msg: Seq<u8>,
    sig: Seq<u8>,
)
    requires
        public_key == mldsa_public_of(v, seed),
        mldsa_verifies(v, mldsa_public_of(v, seed), msg, sig),
    ensures
        mldsa_verifies(v, public_key, msg, sig),
{
}

} // verus!
