//! Key lifecycle management for post-quantum and hybrid cryptography.
//!
//! Three algorithm families — a module-lattice KEM, module-lattice
//! signatures and stateless hash-based signatures — are driven through one
//! uniform generate / encapsulate / decapsulate / sign / verify surface,
//! plus a hybrid composition of a classical Diffie-Hellman exchange with the
//! KEM. The size catalog, validation and dispatch logic, error taxonomy and
//! key-derivation composition are verified; the underlying primitives are
//! called through a small set of trusted wrappers, each documented where it
//! stands.

pub mod algorithm;
pub mod auth;
pub mod error;
pub mod error_code;
pub mod hybrid;
pub mod mldsa;
pub mod mlkem;
pub mod policy;
pub mod proxy;
pub mod rng;
pub mod slhdsa;
pub mod text;
pub mod tls_config;

pub use error::{CryptoError, CryptoResult};
