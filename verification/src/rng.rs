//! Secure randomness source: the single abstraction over the operating
//! system's CSPRNG. Every key-generation and randomized-signing operation in
//! this crate draws its entropy through [`os_random`] or, for the ML-KEM
//! wrappers, through the kem crate's getrandom-backed OS entry points — in
//! every case exclusively the OS CSPRNG, never anything user-seedable. If
//! the OS entropy source is unavailable the process aborts: no
//! cryptographic operation may continue on unverified entropy.
//!
//! The module also hosts [`wipe`], the scrubbing half of the secret-buffer
//! discipline: transient secret buffers are overwritten before they drop.

use vstd::prelude::*;

use zeroize::Zeroize;

verus! {

/// Draw `n` cryptographically secure random bytes from the OS entropy source.
///
/// Relies on getrandom::fill, which fills the whole buffer from the OS
/// CSPRNG. Nothing can be promised of the values drawn; only the length is
/// stated. Panics (by design, fail-closed) if the OS entropy source is
/// unavailable.
#[verifier::external_body]
pub(crate) fn os_random(n: usize) -> (r: Vec<u8>)
    ensures
        r@.len() == n,
{
    let mut buf = vec![0u8; n];
    getrandom::fill(&mut buf).expect("OS entropy source unavailable - cannot proceed safely");
    buf
}

/// Relies on zeroize's Vec<u8> impl: every element and the spare capacity
/// are overwritten with zeros, then the vector is cleared. Used on every
/// transient secret buffer before it goes out of scope.
#[verifier::external_body]
pub(crate) fn wipe(buf: &mut Vec<u8>)
    ensures
        final(buf)@.len() == 0,
{
    buf.zeroize();
}

/// OS-backed cryptographically secure randomness source.
///
/// This is the one audited entropy path of the crate: a caller-visible handle
/// whose `fill` draws from the OS CSPRNG and from nothing user-seedable.
///
/// # Panics
///
/// Operations abort the process if the OS entropy source is unavailable.
/// This is considered unrecoverable: a system without a working RNG cannot
/// safely perform any cryptographic operation.
pub struct PqcRng;

impl PqcRng {
    /// Overwrite the whole buffer with fresh OS randomness, keeping its length.
    pub fn fill(&mut self, buf: &mut Vec<u8>)
        ensures
            final(buf)@.len() == old(buf)@.len(),
    {
        let n = buf.len();
        let fresh = os_random(n);
        *buf = fresh;
    }
}

} // verus!
