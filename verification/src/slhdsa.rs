//! SLH-DSA key lifecycle (FIPS 205): generate / sign / verify over the six
//! SHA2 parameter sets.
//!
//! Unlike the lattice families there is no seed-expansion scheme: the secret
//! key is stored fully expanded (its serialization is sk_seed, sk_prf and
//! the verifying key, concatenated), and signing is randomized per call with
//! fresh OS entropy. The same variant-mismatch and malformed-input error
//! distinctions apply as for the lattice signatures.

use vstd::prelude::*;

use crate::algorithm::SlhDsaVariant;
use crate::error::{CryptoError, CryptoResult};
use crate::rng::{os_random, wipe};
use signature::Verifier;
use zeroize::Zeroize;

verus! {

/// Whether FIPS 205 verification accepts `sig` as a signature on `msg` under
/// the verifying key `public_key`. Deterministic in its arguments.
pub uninterp spec fn slhdsa_verifies(
    v: SlhDsaVariant,
    public_key: Seq<u8>,
    msg: Seq<u8>,
    sig: Seq<u8>,
) -> bool;

/// Whether `sig` is a structurally valid FIPS 205 signature encoding for the
/// parameter set (right length, well-formed components). Deterministic.
pub uninterp spec fn slhdsa_sig_ok(v: SlhDsaVariant, sig: Seq<u8>) -> bool;

/// Relies on SigningKey::<Sha2_128s>::slh_keygen_internal (FIPS 205 key
/// generation from three 16-byte seeds) and the key serializations: the
/// secret encodes as sk_seed, sk_prf and the verifying key concatenated, so
/// the public key is the last 32 bytes of the 64-byte secret.
#[verifier::external_body]
fn slhdsa_generate_128s(entropy: &[u8]) -> (r: (Vec<u8>, Vec<u8>))
    requires
        entropy@.len() == 48,
    ensures
        r.0@.len() == 64,
        r.1@.len() == 32,
        r.1@ == r.0@.subrange(32, 64),
{
    let sk = slh_dsa::SigningKey::<slh_dsa::Sha2_128s>::slh_keygen_internal(
        &entropy[0..16],
        &entropy[16..32],
        &entropy[32..48],
    );
    let vk: &slh_dsa::VerifyingKey<slh_dsa::Sha2_128s> = sk.as_ref();
    (sk.to_vec(), vk.to_vec())
}

/// Relies on SigningKey::<Sha2_128f>; see the 128s wrapper.
#[verifier::external_body]
fn slhdsa_generate_128f(entropy: &[u8]) -> (r: (Vec<u8>, Vec<u8>))
    requires
        entropy@.len() == 48,
    ensures
        r.0@.len() == 64,
        r.1@.len() == 32,
        r.1@ == r.0@.subrange(32, 64),
{
    let sk = slh_dsa::SigningKey::<slh_dsa::Sha2_128f>::slh_keygen_internal(
        &entropy[0..16],
        &entropy[16..32],
        &entropy[32..48],
    );
    let vk: &slh_dsa::VerifyingKey<slh_dsa::Sha2_128f> = sk.as_ref();
    (sk.to_vec(), vk.to_vec())
}

/// Relies on SigningKey::<Sha2_192s> (24-byte seeds); see the 128s wrapper.
#[verifier::external_body]
fn slhdsa_generate_192s(entropy: &[u8]) -> (r: (Vec<u8>, Vec<u8>))
    requires
        entropy@.len() == 72,
    ensures
        r.0@.len() == 96,
        r.1@.len() == 48,
        r.1@ == r.0@.subrange(48, 96),
{
    let sk = slh_dsa::SigningKey::<slh_dsa::Sha2_192s>::slh_keygen_internal(
        &entropy[0..24],
        &entropy[24..48],
        &entropy[48..72],
    );
    let vk: &slh_dsa::VerifyingKey<slh_dsa::Sha2_192s> = sk.as_ref();
    (sk.to_vec(), vk.to_vec())
}

/// Relies on SigningKey::<Sha2_192f> (24-byte seeds); see the 128s wrapper.
#[verifier::external_body]
fn slhdsa_generate_192f(entropy: &[u8]) -> (r: (Vec<u8>, Vec<u8>))
    requires
        entropy@.len() == 72,
    ensures
        r.0@.len() == 96,
        r.1@.len() == 48,
        r.1@ == r.0@.subrange(48, 96),
{
    let sk = slh_dsa::SigningKey::<slh_dsa::Sha2_192f>::slh_keygen_internal(
        &entropy[0..24],
        &entropy[24..48],
        &entropy[48..72],
    );
    let vk: &slh_dsa::VerifyingKey<slh_dsa::Sha2_192f> = sk.as_ref();
    (sk.to_vec(), vk.to_vec())
}

/// Relies on SigningKey::<Sha2_256s> (32-byte seeds); see the 128s wrapper.
#[verifier::external_body]
fn slhdsa_generate_256s(entropy: &[u8]) -> (r: (Vec<u8>, Vec<u8>))
    requires
        entropy@.len() == 96,
    ensures
        r.0@.len() == 128,
        r.1@.len() == 64,
        r.1@ == r.0@.subrange(64, 128),
{
    let sk = slh_dsa::SigningKey::<slh_dsa::Sha2_256s>::slh_keygen_internal(
        &entropy[0..32],
        &entropy[32..64],
        &entropy[64..96],
    );
    let vk: &slh_dsa::VerifyingKey<slh_dsa::Sha2_256s> = sk.as_ref();
    (sk.to_vec(), vk.to_vec())
}

/// Relies on SigningKey::<Sha2_256f> (32-byte seeds); see the 128s wrapper.
#[verifier::external_body]
fn slhdsa_generate_256f(entropy: &[u8]) -> (r: (Vec<u8>, Vec<u8>))
    requires
        entropy@.len() == 96,
    ensures
        r.0@.len() == 128,
        r.1@.len() == 64,
        r.1@ == r.0@.subrange(64, 128),
{
    let sk = slh_dsa::SigningKey::<slh_dsa::Sha2_256f>::slh_keygen_internal(
        &entropy[0..32],
        &entropy[32..64],
        &entropy[64..96],
    );
    let vk: &slh_dsa::VerifyingKey<slh_dsa::Sha2_256f> = sk.as_ref();
    (sk.to_vec(), vk.to_vec())
}

/// Relies on SigningKey::<Sha2_128s>::try_from (fails exactly on a wrong
/// length) and try_sign_with_context with an empty context and the given
/// 16-byte randomizer (infallible there): the signature has the catalog's
/// length, decodes back, and verifies under the secret's verifying key —
/// the last 32 bytes of the secret encoding (FIPS 205 correctness).
#[verifier::external_body]
fn slhdsa_sign_128s(secret: &[u8], randomizer: &[u8], message: &[u8]) -> (r: Vec<u8>)
    requires
        secret@.len() == 64,
        randomizer@.len() == 16,
    ensures
        r@.len() == 7856,
        slhdsa_sig_ok(SlhDsaVariant::Sha2_128s, r@),
        slhdsa_verifies(SlhDsaVariant::Sha2_128s, secret@.subrange(32, 64), message@, r@),
{
    let sk = slh_dsa::SigningKey::<slh_dsa::Sha2_128s>::try_from(secret)
        .expect("secret length is checked by the caller");
    let sig = sk.try_sign_with_context(message, &[], Some(randomizer))
        .expect("empty-context signing cannot fail");
    sig.to_vec()
}

/// Relies on SigningKey::<Sha2_128f>; see the 128s wrapper.
#[verifier::external_body]
fn slhdsa_sign_128f(secret: &[u8], randomizer: &[u8], message: &[u8]) -> (r: Vec<u8>)
    requires
        secret@.len() == 64,
        randomizer@.len() == 16,
    ensures
        r@.len() == 17088,
        slhdsa_sig_ok(SlhDsaVariant::Sha2_128f, r@),
        slhdsa_verifies(SlhDsaVariant::Sha2_128f, secret@.subrange(32, 64), message@, r@),
{
    let sk = slh_dsa::SigningKey::<slh_dsa::Sha2_128f>::try_from(secret)
        .expect("secret length is checked by the caller");
    let sig = sk.try_sign_with_context(message, &[], Some(randomizer))
        .expect("empty-context signing cannot fail");
    sig.to_vec()
}

/// Relies on SigningKey::<Sha2_192s> (24-byte randomizer); see the 128s wrapper.
#[verifier::external_body]
fn slhdsa_sign_192s(secret: &[u8], randomizer: &[u8], message: &[u8]) -> (r: Vec<u8>)
    requires
        secret@.len() == 96,
        randomizer@.len() == 24,
    ensures
        r@.len() == 16224,
        slhdsa_sig_ok(SlhDsaVariant::Sha2_192s, r@),
        slhdsa_verifies(SlhDsaVariant::Sha2_192s, secret@.subrange(48, 96), message@, r@),
{
    let sk = slh_dsa::SigningKey::<slh_dsa::Sha2_192s>::try_from(secret)
        .expect("secret length is checked by the caller");
    let sig = sk.try_sign_with_context(message, &[], Some(randomizer))
        .expect("empty-context signing cannot fail");
    sig.to_vec()
}

/// Relies on SigningKey::<Sha2_192f> (24-byte randomizer); see the 128s wrapper.
#[verifier::external_body]
fn slhdsa_sign_192f(secret: &[u8], randomizer: &[u8], message: &[u8]) -> (r: Vec<u8>)
    requires
        secret@.len() == 96,
        randomizer@.len() == 24,
    ensures
        r@.len() == 35664,
        slhdsa_sig_ok(SlhDsaVariant::Sha2_192f, r@),
        slhdsa_verifies(SlhDsaVariant::Sha2_192f, secret@.subrange(48, 96), message@, r@),
{
    let sk = slh_dsa::SigningKey::<slh_dsa::Sha2_192f>::try_from(secret)
        .expect("secret length is checked by the caller");
    let sig = sk.try_sign_with_context(message, &[], Some(randomizer))
        .expect("empty-context signing cannot fail");
    sig.to_vec()
}

/// Relies on SigningKey::<Sha2_256s> (32-byte randomizer); see the 128s wrapper.
#[verifier::external_body]
fn slhdsa_sign_256s(secret: &[u8], randomizer: &[u8], message: &[u8]) -> (r: Vec<u8>)
    requires
        secret@.len() == 128,
        randomizer@.len() == 32,
    ensures
        r@.len() == 29792,
        slhdsa_sig_ok(SlhDsaVariant::Sha2_256s, r@),
        slhdsa_verifies(SlhDsaVariant::Sha2_256s, secret@.subrange(64, 128), message@, r@),
{
    let sk = slh_dsa::SigningKey::<slh_dsa::Sha2_256s>::try_from(secret)
        .expect("secret length is checked by the caller");
    let sig = sk.try_sign_with_context(message, &[], Some(randomizer))
        .expect("empty-context signing cannot fail");
    sig.to_vec()
}

/// Relies on SigningKey::<Sha2_256f> (32-byte randomizer); see the 128s wrapper.
#[verifier::external_body]
fn slhdsa_sign_256f(secret: &[u8], randomizer: &[u8], message: &[u8]) -> (r: Vec<u8>)
    requires
        secret@.len() == 128,
        randomizer@.len() == 32,
    ensures
        r@.len() == 49856,
        slhdsa_sig_ok(SlhDsaVariant::Sha2_256f, r@),
        slhdsa_verifies(SlhDsaVariant::Sha2_256f, secret@.subrange(64, 128), message@, r@),
{
    let sk = slh_dsa::SigningKey::<slh_dsa::Sha2_256f>::try_from(secret)
        .expect("secret length is checked by the caller");
    let sig = sk.try_sign_with_context(message, &[], Some(randomizer))
        .expect("empty-context signing cannot fail");
    sig.to_vec()
}

/// Relies on VerifyingKey::<Sha2_128s>::try_from (fails exactly on a wrong
/// length), Signature::try_from (succeeds exactly on a structurally valid
/// encoding) and Verifier::verify, which accepts exactly the
/// cryptographically valid signatures on the message.
#[verifier::external_body]
fn slhdsa_verify_128s(public_key: &[u8], message: &[u8], sig: &[u8]) -> (r: Option<bool>)
    ensures
        r is Some <==> (public_key@.len() == 32 && slhdsa_sig_ok(SlhDsaVariant::Sha2_128s, sig@)),
        sig@.len() != 7856 ==> r is None,
        r matches Some(b) ==> b == slhdsa_verifies(
            SlhDsaVariant::Sha2_128s,
            public_key@,
            message@,
            sig@,
        ),
{
    let vk = match slh_dsa::VerifyingKey::<slh_dsa::Sha2_128s>::try_from(public_key) {
        Ok(vk) => vk,
        Err(_) => return None,
    };
    let sig = match slh_dsa::Signature::<slh_dsa::Sha2_128s>::try_from(sig) {
        Ok(s) => s,
        Err(_) => return None,
    };
    Some(vk.verify(message, &sig).is_ok())
}

/// Relies on VerifyingKey::<Sha2_128f>; see the 128s wrapper.
#[verifier::external_body]
fn slhdsa_verify_128f(public_key: &[u8], message: &[u8], sig: &[u8]) -> (r: Option<bool>)
    ensures
        r is Some <==> (public_key@.len() == 32 && slhdsa_sig_ok(SlhDsaVariant::Sha2_128f, sig@)),
        sig@.len() != 17088 ==> r is None,
        r matches Some(b) ==> b == slhdsa_verifies(
            SlhDsaVariant::Sha2_128f,
            public_key@,
            message@,
            sig@,
        ),
{
    let vk = match slh_dsa::VerifyingKey::<slh_dsa::Sha2_128f>::try_from(public_key) {
        Ok(vk) => vk,
        Err(_) => return None,
    };
    let sig = match slh_dsa::Signature::<slh_dsa::Sha2_128f>::try_from(sig) {
        Ok(s) => s,
        Err(_) => return None,
    };
    Some(vk.verify(message, &sig).is_ok())
}

/// Relies on VerifyingKey::<Sha2_192s>; see the 128s wrapper.
#[verifier::external_body]
fn slhdsa_verify_192s(public_key: &[u8], message: &[u8], sig: &[u8]) -> (r: Option<bool>)
    ensures
        r is Some <==> (public_key@.len() == 48 && slhdsa_sig_ok(SlhDsaVariant::Sha2_192s, sig@)),
        sig@.len() != 16224 ==> r is None,
        r matches Some(b) ==> b == slhdsa_verifies(
            SlhDsaVariant::Sha2_192s,
            public_key@,
            message@,
            sig@,
        ),
{
    let vk = match slh_dsa::VerifyingKey::<slh_dsa::Sha2_192s>::try_from(public_key) {
        Ok(vk) => vk,
        Err(_) => return None,
    };
    let sig = match slh_dsa::Signature::<slh_dsa::Sha2_192s>::try_from(sig) {
        Ok(s) => s,
        Err(_) => return None,
    };
    Some(vk.verify(message, &sig).is_ok())
}

/// Relies on VerifyingKey::<Sha2_192f>; see the 128s wrapper.
#[verifier::external_body]
fn slhdsa_verify_192f(public_key: &[u8], message: &[u8], sig: &[u8]) -> (r: Option<bool>)
    ensures
        r is Some <==> (public_key@.len() == 48 && slhdsa_sig_ok(SlhDsaVariant::Sha2_192f, sig@)),
        sig@.len() != 35664 ==> r is None,
        r matches Some(b) ==> b == slhdsa_verifies(
            SlhDsaVariant::Sha2_192f,
            public_key@,
            message@,
            sig@,
        ),
{
    let vk = match slh_dsa::VerifyingKey::<slh_dsa::Sha2_192f>::try_from(public_key) {
        Ok(vk) => vk,
        Err(_) => return None,
    };
    let sig = match slh_dsa::Signature::<slh_dsa::Sha2_192f>::try_from(sig) {
        Ok(s) => s,
        Err(_) => return None,
    };
    Some(vk.verify(message, &sig).is_ok())
}

/// Relies on VerifyingKey::<Sha2_256s>; see the 128s wrapper.
#[verifier::external_body]
fn slhdsa_verify_256s(public_key: &[u8], message: &[u8], sig: &[u8]) -> (r: Option<bool>)
    ensures
        r is Some <==> (public_key@.len() == 64 && slhdsa_sig_ok(SlhDsaVariant::Sha2_256s, sig@)),
        sig@.len() != 29792 ==> r is None,
        r matches Some(b) ==> b == slhdsa_verifies(
            SlhDsaVariant::Sha2_256s,
            public_key@,
            message@,
            sig@,
        ),
{
    let vk = match slh_dsa::VerifyingKey::<slh_dsa::Sha2_256s>::try_from(public_key) {
        Ok(vk) => vk,
        Err(_) => return None,
    };
    let sig = match slh_dsa::Signature::<slh_dsa::Sha2_256s>::try_from(sig) {
        Ok(s) => s,
        Err(_) => return None,
    };
    Some(vk.verify(message, &sig).is_ok())
}

/// Relies on VerifyingKey::<Sha2_256f>; see the 128s wrapper.
#[verifier::external_body]
fn slhdsa_verify_256f(public_key: &[u8], message: &[u8], sig: &[u8]) -> (r: Option<bool>)
    ensures
        r is Some <==> (public_key@.len() == 64 && slhdsa_sig_ok(SlhDsaVariant::Sha2_256f, sig@)),
        sig@.len() != 49856 ==> r is None,
        r matches Some(b) ==> b == slhdsa_verifies(
            SlhDsaVariant::Sha2_256f,
            public_key@,
            message@,
            sig@,
        ),
{
    let vk = match slh_dsa::VerifyingKey::<slh_dsa::Sha2_256f>::try_from(public_key) {
        Ok(vk) => vk,
        Err(_) => return None,
    };
    let sig = match slh_dsa::Signature::<slh_dsa::Sha2_256f>::try_from(sig) {
        Ok(s) => s,
        Err(_) => return None,
    };
    Some(vk.verify(message, &sig).is_ok())
}

/// SLH-DSA key pair (FIPS 205).
///
/// Provides conservative post-quantum security resting only on hash
/// functions. The secret key is stored fully expanded and zeroized when the
/// pair is dropped; it must be omitted from any serialized representation.
#[derive(Debug, Clone)]
pub struct SlhDsaKeyPair {
    pub variant: SlhDsaVariant,
    /// Serialized verifying (public) key bytes.
    pub public_key: Vec<u8>,
    /// Serialized signing (secret) key bytes.
    pub secret_key: Vec<u8>,
}

impl SlhDsaKeyPair {
    /// Key material has the catalog's lengths for this parameter set.
    pub open spec fn wf(self) -> bool {
        &&& self.public_key@.len() == self.variant.spec_key_sizes().0
        &&& self.secret_key@.len() == self.variant.spec_key_sizes().1
    }

    /// The verifying key is the tail of the secret-key encoding.
    pub open spec fn spec_public_of_secret(self) -> Seq<u8> {
        self.secret_key@.subrange(
            self.variant.spec_key_sizes().0 as int,
            self.variant.spec_key_sizes().1 as int,
        )
    }
}

impl Drop for SlhDsaKeyPair {
    /// Relies on zeroize's Vec<u8> impl: the buffer is overwritten with
    /// zeros (and cleared) before the memory is released.
    #[verifier::external_body]
    fn drop(&mut self)
        opens_invariants none
        no_unwind
    {
        self.secret_key.zeroize();
    }
}

/// An SLH-DSA signature: no secret material.
#[derive(Debug, Clone)]
pub struct SlhDsaSignature {
    pub signature: Vec<u8>,
    pub variant: SlhDsaVariant,
}

impl SlhDsaKeyPair {
    /// Generate a new SLH-DSA key pair from fresh OS entropy (three seeds of
    /// the parameter set's hash size).
    pub fn generate(variant: SlhDsaVariant) -> (r: CryptoResult<Self>)
        ensures
            r is Ok,
            r matches Ok(kp) ==> kp.wf() && kp.variant == variant && kp.public_key@
                == kp.spec_public_of_secret(),
    {
        let (pk_len, _) = variant.key_sizes();
        let mut entropy = os_random(3 * (pk_len / 2));
        let (secret_key, public_key) = match variant {
            SlhDsaVariant::Sha2_128s => slhdsa_generate_128s(entropy.as_slice()),
            SlhDsaVariant::Sha2_128f => slhdsa_generate_128f(entropy.as_slice()),
            SlhDsaVariant::Sha2_192s => slhdsa_generate_192s(entropy.as_slice()),
            SlhDsaVariant::Sha2_192f => slhdsa_generate_192f(entropy.as_slice()),
            SlhDsaVariant::Sha2_256s => slhdsa_generate_256s(entropy.as_slice()),
            SlhDsaVariant::Sha2_256f => slhdsa_generate_256f(entropy.as_slice()),
        };
        wipe(&mut entropy);
        Ok(SlhDsaKeyPair { variant, public_key, secret_key })
    }

    /// Generate with a caller-supplied RNG.
    ///
    /// The supplied generator is deliberately ignored and generation draws
    /// from the OS entropy path instead: mixing caller-provided entropy into
    /// post-quantum key material must not be possible.
    pub fn generate_with_rng<R>(variant: SlhDsaVariant, _rng: &mut R) -> (r: CryptoResult<Self>)
        ensures
            r is Ok,
            r matches Ok(kp) ==> kp.wf() && kp.variant == variant && kp.public_key@
                == kp.spec_public_of_secret(),
    {
        Self::generate(variant)
    }

    /// Sign a message, randomized per call with fresh OS entropy. An absent
    /// (empty) secret key - the state of every deserialized pair - fails
    /// with `InvalidKeyMaterial`; a mis-sized one (structural corruption)
    /// fails with `Signing`. Otherwise the signature has the catalog's
    /// length and verifies under this secret's verifying key.
    pub fn sign(&self, message: &[u8]) -> (r: CryptoResult<SlhDsaSignature>)
        ensures
            r is Ok <==> self.secret_key@.len() == self.variant.spec_key_sizes().1,
            r matches Ok(sig) ==> sig.variant == self.variant && sig.signature@.len()
                == self.variant.spec_signature_size() && slhdsa_sig_ok(
                self.variant,
                sig.signature@,
            ) && slhdsa_verifies(
                self.variant,
                self.spec_public_of_secret(),
                message@,
                sig.signature@,
            ),
            self.secret_key@.len() == 0 ==> (r matches Err(e) && e is InvalidKeyMaterial),
            self.secret_key@.len() != 0 && self.secret_key@.len()
                != self.variant.spec_key_sizes().1 ==> (r matches Err(e) && e is Signing),
    {
        if self.secret_key.len() == 0 {
            return Err(CryptoError::InvalidKeyMaterial("secret key not available".to_owned()));
        }
        let (_, sk_len) = self.variant.key_sizes();
        if self.secret_key.len() != sk_len {
            return Err(CryptoError::Signing("invalid SLH-DSA signing key".to_owned()));
        }
        let signature = match self.variant {
            SlhDsaVariant::Sha2_128s => slhdsa_sign_128s(
                self.secret_key.as_slice(),
                os_random(16).as_slice(),
                message,
            ),
            SlhDsaVariant::Sha2_128f => slhdsa_sign_128f(
                self.secret_key.as_slice(),
                os_random(16).as_slice(),
                message,
            ),
            SlhDsaVariant::Sha2_192s => slhdsa_sign_192s(
                self.secret_key.as_slice(),
                os_random(24).as_slice(),
                message,
            ),
            SlhDsaVariant::Sha2_192f => slhdsa_sign_192f(
                self.secret_key.as_slice(),
                os_random(24).as_slice(),
                message,
            ),
            SlhDsaVariant::Sha2_256s => slhdsa_sign_256s(
                self.secret_key.as_slice(),
                os_random(32).as_slice(),
                message,
            ),
            SlhDsaVariant::Sha2_256f => slhdsa_sign_256f(
                self.secret_key.as_slice(),
                os_random(32).as_slice(),
                message,
            ),
        };
        Ok(SlhDsaSignature { signature, variant: self.variant })
    }

    /// Verify a signature against a message.
    ///
    /// A variant mismatch between key and signature is a caller error and
    /// fails with `Verification`, as does structurally invalid key or
    /// signature material. A structurally valid signature that simply does
    /// not match the message is a successful `Ok(false)`, never an error.
    pub fn verify(&self, message: &[u8], sig: &SlhDsaSignature) -> (r: CryptoResult<bool>)
        ensures
            sig.variant != self.variant ==> r is Err,
            sig.variant == self.variant ==> (r is Ok <==> self.public_key@.len()
                == self.variant.spec_key_sizes().0 && slhdsa_sig_ok(self.variant, sig.signature@)),
            r matches Ok(b) ==> b == slhdsa_verifies(
                self.variant,
                self.public_key@,
                message@,
                sig.signature@,
            ),
            r matches Err(e) ==> e is Verification,
    {
        if sig.variant != self.variant {
            return Err(
                CryptoError::Verification("variant mismatch between key and signature".to_owned()),
            );
        }
        let res = match self.variant {
            SlhDsaVariant::Sha2_128s => slhdsa_verify_128s(
                self.public_key.as_slice(),
                message,
                sig.signature.as_slice(),
            ),
            SlhDsaVariant::Sha2_128f => slhdsa_verify_128f(
                self.public_key.as_slice(),
                message,
                sig.signature.as_slice(),
            ),
            SlhDsaVariant::Sha2_192s => slhdsa_verify_192s(
                self.public_key.as_slice(),
                message,
                sig.signature.as_slice(),
            ),
            SlhDsaVariant::Sha2_192f => slhdsa_verify_192f(
                self.public_key.as_slice(),
                message,
                sig.signature.as_slice(),
            ),
            SlhDsaVariant::Sha2_256s => slhdsa_verify_256s(
                self.public_key.as_slice(),
                message,
                sig.signature.as_slice(),
            ),
            SlhDsaVariant::Sha2_256f => slhdsa_verify_256f(
                self.public_key.as_slice(),
                message,
                sig.signature.as_slice(),
            ),
        };
        match res {
            Some(b) => Ok(b),
            None => Err(CryptoError::Verification("invalid key or signature encoding".to_owned())),
        }
    }
}

/// Signature round trip: a signature stated valid under the verifying key
/// embedded in a secret key verifies under any public key equal to that
/// embedded key — together with `sign`'s and `verify`'s contracts, signing
/// with a generated pair and verifying with the same pair yields `true`.
pub proof fn lemma_slhdsa_sign_verify(
    v: SlhDsaVariant,
    secret: Seq<u8>,
    public_key: Seq<u8>,
    msg: Seq<u8>,
    sig: Seq<u8>,
)
    requires
        public_key == secret.subrange(
            v.spec_key_sizes().0 as int,
            v.spec_key_sizes().1 as int,
        ),
        slhdsa_verifies(
            v,
            secret.subrange(v.spec_key_sizes().0 as int, v.spec_key_sizes().1 as int),
            msg,
            sig,
        ),
    ensures
        slhdsa_verifies(v, public_key, msg, sig),
{
}

} // verus!
