//! Hybrid KEM composer: X25519 and ML-KEM-768 driven in lockstep, their two
//! shared secrets folded through a keyed hash with a fixed domain-separation
//! tag. Breaking either component alone does not compromise the derived
//! secret.
//!
//! The classical exchange and the digest are performed by `x25519-dalek` and
//! `sha2` through trusted wrappers; the composition, validation and error
//! discipline around them are verified.

use vstd::prelude::*;

use crate::algorithm::{HybridVariant, MlKemVariant};
use crate::error::{CryptoError, CryptoResult};
use crate::mlkem::{
    mlkem_encapsulation_for, mlkem_keypair_ok, mlkem_secret_ok, mlkem_shared_of, MlKemKeyPair,
};
use crate::rng::{os_random, wipe};
use sha2::Digest;
use zeroize::Zeroize;

verus! {

/// The X25519 public key derived from a 32-byte secret. Deterministic.
pub uninterp spec fn x25519_public_of(secret: Seq<u8>) -> Seq<u8>;

/// The X25519 shared secret of a 32-byte secret and a peer public key.
/// Deterministic in its arguments.
pub uninterp spec fn x25519_shared_of(secret: Seq<u8>, public: Seq<u8>) -> Seq<u8>;

/// The SHA-256 digest of a byte sequence. Deterministic.
pub uninterp spec fn sha256_of(data: Seq<u8>) -> Seq<u8>;

/// Relies on x25519_dalek::PublicKey::from(&StaticSecret): the public key
/// is derived deterministically from the 32-byte secret. The transient
/// stack copy of the secret is zeroized after use.
#[verifier::external_body]
fn x25519_public(secret: &[u8]) -> (r: Vec<u8>)
    requires
        secret@.len() == 32,
    ensures
        r@.len() == 32,
        r@ == x25519_public_of(secret@),
{
    let mut arr: [u8; 32] = secret.try_into().expect("length is checked by the caller");
    let sk = x25519_dalek::StaticSecret::from(arr);
    arr.zeroize();
    let pk = x25519_dalek::PublicKey::from(&sk);
    pk.as_bytes().to_vec()
}

/// Relies on x25519_dalek::StaticSecret::diffie_hellman: the shared point
/// is a deterministic function of the secret and the peer public key, and
/// the X25519 exchange is symmetric (RFC 7748) — against a peer's public
/// key it equals what the peer derives against ours. The transient stack
/// copy of the secret is zeroized after use.
#[verifier::external_body]
fn x25519_shared(secret: &[u8], public: &[u8]) -> (r: Vec<u8>)
    requires
        secret@.len() == 32,
        public@.len() == 32,
    ensures
        r@.len() == 32,
        r@ == x25519_shared_of(secret@, public@),
        forall|peer: Seq<u8>|
            public@ == x25519_public_of(peer) ==> r@ == #[trigger] x25519_shared_of(
                peer,
                x25519_public_of(secret@),
            ),
{
    let mut s: [u8; 32] = secret.try_into().expect("length is checked by the caller");
    let sk = x25519_dalek::StaticSecret::from(s);
    s.zeroize();
    let p: [u8; 32] = public.try_into().expect("length is checked by the caller");
    let pk = x25519_dalek::PublicKey::from(p);
    sk.diffie_hellman(&pk).as_bytes().to_vec()
}

/// Relies on sha2::Sha256: the digest is 32 bytes and a function of the
/// input bytes alone.
#[verifier::external_body]
fn sha256(data: &[u8]) -> (r: Vec<u8>)
    ensures
        r@.len() == 32,
        r@ == sha256_of(data@),
{
    let mut hasher = sha2::Sha256::new();
    hasher.update(data);
    hasher.finalize().to_vec()
}

/// The fixed domain-separation tag mixed into every combined-secret
/// derivation, unique to this protocol and version.
pub open spec fn hybrid_domain_tag() -> Seq<u8> {
    seq![
        0x71u8, 0x75, 0x61, 0x6e, 0x74, 0x75, 0x6e, 0x2d, 0x68, 0x79, 0x62, 0x72, 0x69, 0x64,
        0x2d, 0x6b, 0x65, 0x6d, 0x2d, 0x76, 0x31,
    ]
}

/// The ASCII bytes of "quantun-hybrid-kem-v1".
fn domain_tag_bytes() -> (r: Vec<u8>)
    ensures
        r@ == hybrid_domain_tag(),
{
    let r: Vec<u8> = vec![
        0x71u8, 0x75, 0x61, 0x6e, 0x74, 0x75, 0x6e, 0x2d, 0x68, 0x79, 0x62, 0x72, 0x69, 0x64,
        0x2d, 0x6b, 0x65, 0x6d, 0x2d, 0x76, 0x31,
    ];
    proof {
        assert(r@ =~= hybrid_domain_tag());
    }
    r
}

/// The combined secret: a SHA-256 digest over the domain tag, the classical
/// shared secret and the PQC shared secret, in that fixed order.
pub open spec fn spec_combined_secret(classical: Seq<u8>, pqc: Seq<u8>) -> Seq<u8> {
    sha256_of(hybrid_domain_tag() + classical + pqc)
}

/// Append the bytes of a slice to a vector.
fn append_bytes(dst: &mut Vec<u8>, src: &[u8])
    ensures
        final(dst)@ == old(dst)@ + src@,
{
    let n = src.len();
    proof {
        assert(dst@ =~= old(dst)@ + src@.take(0));
    }
    for i in 0..n
        invariant
            n == src@.len(),
            dst@ == old(dst)@ + src@.take(i as int),
    {
        dst.push(src[i]);
        proof {
            assert(old(dst)@ + src@.take(i + 1) =~= (old(dst)@ + src@.take(i as int)).push(
                src@[i as int],
            ));
        }
    }
    proof {
        assert(src@.take(n as int) =~= src@);
    }
}

/// KDF: combine the classical and PQC shared secrets through SHA-256 with
/// the domain-separation tag, so the derived key cannot collide with any
/// other protocol's use of the same hash over similar inputs.
fn combine_secrets(classical: &[u8], pqc: &[u8]) -> (r: Vec<u8>)
    ensures
        r@ == spec_combined_secret(classical@, pqc@),
        r@.len() == 32,
{
    let mut data = domain_tag_bytes();
    append_bytes(&mut data, classical);
    append_bytes(&mut data, pqc);
    let r = sha256(data.as_slice());
    wipe(&mut data);
    r
}

/// One possible outcome of a hybrid encapsulation, named by its ephemeral
/// classical secret and its PQC shared secret.
pub open spec fn hybrid_encapsulation_witness(
    v: MlKemVariant,
    recipient_classical: Seq<u8>,
    recipient_pqc: Seq<u8>,
    eph_public: Seq<u8>,
    ct: Seq<u8>,
    shared: Seq<u8>,
    eph_secret: Seq<u8>,
    pqc_shared: Seq<u8>,
) -> bool {
    &&& eph_secret.len() == 32
    &&& eph_public == x25519_public_of(eph_secret)
    &&& mlkem_encapsulation_for(v, recipient_pqc, ct, pqc_shared)
    &&& shared == spec_combined_secret(x25519_shared_of(eph_secret, recipient_classical), pqc_shared)
}

/// What holds of every (ephemeral public, ciphertext, combined secret)
/// triple a hybrid encapsulation returns: some fresh ephemeral secret and
/// some PQC shared secret tie them together.
pub open spec fn hybrid_encapsulation_for(
    v: MlKemVariant,
    recipient_classical: Seq<u8>,
    recipient_pqc: Seq<u8>,
    eph_public: Seq<u8>,
    ct: Seq<u8>,
    shared: Seq<u8>,
) -> bool {
    exists|eph_secret: Seq<u8>, pqc_shared: Seq<u8>|
        #[trigger] hybrid_encapsulation_witness(
            v,
            recipient_classical,
            recipient_pqc,
            eph_public,
            ct,
            shared,
            eph_secret,
            pqc_shared,
        )
}

/// What a hybrid decapsulation returns: the combined secret of this
/// secret's classical exchange with the ephemeral public key and of the KEM
/// decapsulation of the ciphertext — stated both directly and, through the
/// X25519 symmetry, from the ephemeral side's point of view.
pub open spec fn hybrid_decapsulation_of(
    v: MlKemVariant,
    classical_secret: Seq<u8>,
    pqc_secret: Seq<u8>,
    eph_public: Seq<u8>,
    ct: Seq<u8>,
    shared: Seq<u8>,
) -> bool {
    &&& shared == spec_combined_secret(
        x25519_shared_of(classical_secret, eph_public),
        mlkem_shared_of(v, pqc_secret, ct),
    )
    &&& forall|eph_secret: Seq<u8>|
        eph_public == x25519_public_of(eph_secret) ==> shared == spec_combined_secret(
            #[trigger] x25519_shared_of(eph_secret, x25519_public_of(classical_secret)),
            mlkem_shared_of(v, pqc_secret, ct),
        )
}

/// Hybrid KEM key pair combining X25519 with ML-KEM-768.
///
/// The classical secret is optional: it may be cleared to model key export
/// or offload, after which decapsulation must fail rather than silently
/// fall back to the PQC portion alone. It is zeroized on drop and must be
/// omitted from any serialized representation.
#[derive(Debug, Clone)]
pub struct HybridKemKeyPair {
    pub variant: HybridVariant,
    pub classical_public: Vec<u8>,
    pub classical_secret: Option<Vec<u8>>,
    pub pqc_keypair: MlKemKeyPair,
}

impl HybridKemKeyPair {
    /// Key material is well-formed: the hybrid KEM composition over a
    /// well-formed ML-KEM-768 pair, with 32-byte classical components.
    pub open spec fn wf(self) -> bool {
        &&& self.variant == HybridVariant::X25519MlKem768
        &&& self.classical_public@.len() == 32
        &&& (self.classical_secret matches Some(s) ==> s@.len() == 32)
        &&& self.pqc_keypair.wf()
        &&& self.pqc_keypair.variant == MlKemVariant::MlKem768
    }
}

impl Drop for HybridKemKeyPair {
    /// Relies on zeroize's Vec<u8> impl: the classical secret, if present,
    /// is overwritten with zeros (and cleared) before the memory is
    /// released. The PQC pair zeroizes its own secret.
    #[verifier::external_body]
    fn drop(&mut self)
        opens_invariants none
        no_unwind
    {
        if let Some(ref mut secret) = self.classical_secret {
            secret.zeroize();
        }
    }
}

/// Result of a hybrid encapsulation: the ephemeral classical public key and
/// PQC ciphertext to send, and the locally derived combined secret. The
/// combined secret is zeroized on drop.
#[derive(Debug, Clone)]
pub struct HybridEncapsulated {
    pub classical_public: Vec<u8>,
    pub pqc_ciphertext: Vec<u8>,
    pub shared_secret: Vec<u8>,
}

impl Drop for HybridEncapsulated {
    /// Relies on zeroize's Vec<u8> impl; see HybridKemKeyPair::drop.
    #[verifier::external_body]
    fn drop(&mut self)
        opens_invariants none
        no_unwind
    {
        self.shared_secret.zeroize();
    }
}

impl HybridKemKeyPair {
    /// Generate a new X25519 + ML-KEM-768 hybrid key pair, both components
    /// drawn independently from the OS entropy source.
    pub fn generate() -> (r: CryptoResult<Self>)
        ensures
            r is Ok,
            r matches Ok(kp) ==> kp.wf() && (kp.classical_secret matches Some(s)
                && kp.classical_public@ == x25519_public_of(s@)) && mlkem_keypair_ok(
                MlKemVariant::MlKem768,
                kp.pqc_keypair.secret_key@,
                kp.pqc_keypair.public_key@,
            ) && mlkem_secret_ok(MlKemVariant::MlKem768, kp.pqc_keypair.secret_key@),
    {
        let key_bytes = os_random(32);
        let classical_public = x25519_public(key_bytes.as_slice());
        let pqc_keypair = match MlKemKeyPair::generate(MlKemVariant::MlKem768) {
            Ok(kp) => kp,
            Err(e) => return Err(e),
        };
        Ok(
            HybridKemKeyPair {
                variant: HybridVariant::X25519MlKem768,
                classical_public,
                classical_secret: Some(key_bytes),
                pqc_keypair,
            },
        )
    }

    /// Encapsulate against this key pair's public components: a fresh
    /// ephemeral classical exchange plus a KEM encapsulation, folded through
    /// the KDF. A fresh ephemeral key pair is drawn on every call. Fails
    /// with `InvalidKeyMaterial` if the stored classical public key is not
    /// 32 bytes, and with `Encapsulation` if the PQC public key is rejected.
    pub fn encapsulate(&self) -> (r: CryptoResult<HybridEncapsulated>)
        ensures
            r matches Ok(enc) ==> hybrid_encapsulation_for(
                self.pqc_keypair.variant,
                self.classical_public@,
                self.pqc_keypair.public_key@,
                enc.classical_public@,
                enc.pqc_ciphertext@,
                enc.shared_secret@,
            ) && enc.shared_secret@.len() == 32 && enc.classical_public@.len() == 32,
            self.classical_public@.len() != 32 ==> (r matches Err(e) && e is InvalidKeyMaterial),
            self.classical_public@.len() == 32 && mlkem_keypair_ok(
                self.pqc_keypair.variant,
                self.pqc_keypair.secret_key@,
                self.pqc_keypair.public_key@,
            ) ==> r is Ok,
            self.classical_public@.len() == 32 && r is Err ==> (r matches Err(e)
                && e is Encapsulation),
    {
        if self.classical_public.len() != 32 {
            return Err(
                CryptoError::InvalidKeyMaterial("X25519 public key must be 32 bytes".to_owned()),
            );
        }
        let mut ephemeral = os_random(32);
        let ephemeral_public = x25519_public(ephemeral.as_slice());
        let mut classical_shared = x25519_shared(
            ephemeral.as_slice(),
            self.classical_public.as_slice(),
        );
        let pqc_enc = match self.pqc_keypair.encapsulate() {
            Ok(enc) => enc,
            Err(e) => {
                wipe(&mut ephemeral);
                wipe(&mut classical_shared);
                return Err(e);
            },
        };
        let shared_secret = combine_secrets(
            classical_shared.as_slice(),
            pqc_enc.shared_secret.as_slice(),
        );
        let pqc_ciphertext = pqc_enc.ciphertext.clone();
        proof {
            assert(hybrid_encapsulation_witness(
                self.pqc_keypair.variant,
                self.classical_public@,
                self.pqc_keypair.public_key@,
                ephemeral_public@,
                pqc_ciphertext@,
                shared_secret@,
                ephemeral@,
                pqc_enc.shared_secret@,
            ));
        }
        wipe(&mut ephemeral);
        wipe(&mut classical_shared);
        Ok(
            HybridEncapsulated {
                classical_public: ephemeral_public,
                pqc_ciphertext,
                shared_secret,
            },
        )
    }

    /// Decapsulate from ciphertext components. Fails with
    /// `InvalidKeyMaterial` — before any cryptographic work — if the
    /// classical secret is absent or mis-sized, if the ephemeral public key
    /// is not 32 bytes, or if the KEM secret is absent; and with
    /// `Decapsulation` if the KEM rejects a present secret key or the
    /// ciphertext. On success the result is the combined secret that the
    /// originating encapsulation derived.
    pub fn decapsulate(&self, ephemeral_public: &[u8], pqc_ciphertext: &[u8]) -> (r: CryptoResult<
        Vec<u8>,
    >)
        ensures
            self.classical_secret is None ==> (r matches Err(e) && e is InvalidKeyMaterial),
            r is Ok <==> (self.classical_secret matches Some(s) && s@.len() == 32
                && ephemeral_public@.len() == 32 && self.pqc_keypair.secret_key@.len()
                == self.pqc_keypair.variant.spec_key_sizes().1 && mlkem_secret_ok(
                self.pqc_keypair.variant,
                self.pqc_keypair.secret_key@,
            ) && pqc_ciphertext@.len() == self.pqc_keypair.variant.spec_ciphertext_size()),
            r matches Ok(ss) ==> ss@.len() == 32 && (self.classical_secret matches Some(s)
                && hybrid_decapsulation_of(
                self.pqc_keypair.variant,
                s@,
                self.pqc_keypair.secret_key@,
                ephemeral_public@,
                pqc_ciphertext@,
                ss@,
            )),
            (self.classical_secret matches Some(s) && s@.len() != 32) ==> (r matches Err(e)
                && e is InvalidKeyMaterial),
            (self.classical_secret matches Some(s) && s@.len() == 32 && ephemeral_public@.len()
                != 32) ==> (r matches Err(e) && e is InvalidKeyMaterial),
            (self.classical_secret matches Some(s) && s@.len() == 32 && ephemeral_public@.len()
                == 32 && self.pqc_keypair.secret_key@.len() == 0) ==> (r matches Err(e)
                && e is InvalidKeyMaterial),
            (self.classical_secret matches Some(s) && s@.len() == 32 && ephemeral_public@.len()
                == 32 && self.pqc_keypair.secret_key@.len() != 0 && !(
            self.pqc_keypair.secret_key@.len() == self.pqc_keypair.variant.spec_key_sizes().1
                && mlkem_secret_ok(self.pqc_keypair.variant, self.pqc_keypair.secret_key@)
                && pqc_ciphertext@.len() == self.pqc_keypair.variant.spec_ciphertext_size()))
                ==> (r matches Err(e) && e is Decapsulation),
    {
        let secret_bytes = match &self.classical_secret {
            Some(s) => s,
            None => {
                return Err(CryptoError::InvalidKeyMaterial("secret key not available".to_owned()));
            },
        };
        if secret_bytes.len() != 32 {
            return Err(
                CryptoError::InvalidKeyMaterial("X25519 secret must be 32 bytes".to_owned()),
            );
        }
        if ephemeral_public.len() != 32 {
            return Err(
                CryptoError::InvalidKeyMaterial("ephemeral public key must be 32 bytes".to_owned()),
            );
        }
        let mut classical_shared = x25519_shared(secret_bytes.as_slice(), ephemeral_public);
        let mut pqc_shared = match self.pqc_keypair.decapsulate(pqc_ciphertext) {
            Ok(ss) => ss,
            Err(e) => {
                wipe(&mut classical_shared);
                return Err(e);
            },
        };
        let shared_secret = combine_secrets(classical_shared.as_slice(), pqc_shared.as_slice());
        wipe(&mut classical_shared);
        wipe(&mut pqc_shared);
        Ok(shared_secret)
    }
}

/// Hybrid round trip: decapsulating, with the recipient's classical secret
/// and KEM seed, the components produced by an encapsulation against the
/// matching public keys yields exactly that encapsulation's combined
/// secret.
pub proof fn lemma_hybrid_round_trip(
    v: MlKemVariant,
    classical_secret: Seq<u8>,
    pqc_secret: Seq<u8>,
    pqc_public: Seq<u8>,
    eph_public: Seq<u8>,
    ct: Seq<u8>,
    shared_enc: Seq<u8>,
    shared_dec: Seq<u8>,
)
    requires
        mlkem_keypair_ok(v, pqc_secret, pqc_public),
        hybrid_encapsulation_for(
            v,
            x25519_public_of(classical_secret),
            pqc_public,
            eph_public,
            ct,
            shared_enc,
        ),
        hybrid_decapsulation_of(v, classical_secret, pqc_secret, eph_public, ct, shared_dec),
    ensures
        shared_dec == shared_enc,
{
    let (e, k) = choose|e: Seq<u8>, k: Seq<u8>|
        hybrid_encapsulation_witness(
            v,
            x25519_public_of(classical_secret),
            pqc_public,
            eph_public,
            ct,
            shared_enc,
            e,
            k,
        );
    assert(mlkem_shared_of(v, pqc_secret, ct) == k);
    assert(shared_dec == spec_combined_secret(
        x25519_shared_of(e, x25519_public_of(classical_secret)),
        mlkem_shared_of(v, pqc_secret, ct),
    ));
}

} // verus!
