//! Integrity proofs from a trusted execution environment (TEE).
//!
//! An integrity proof is a signature, produced inside a TEE, over the verifying
//! key of a program and the public values that one execution of it committed to.
//! It is a second, independent factor next to the zero-knowledge proof of the
//! same execution.
//!
//! The crate holds the payloads exchanged with the signing service
//! ([`api`]), the digest that is signed ([`hash`]), the range of the scalars of
//! a signature ([`scalar`]), the check of a response against a trusted signer
//! ([`verify`]), the byte layout of each payload on the wire ([`wire`]) and the
//! life cycle of one request ([`lifecycle`]). What fails, fails with a
//! [`error::TEEError`].

use vstd::prelude::*;

pub mod api;
pub mod endian;
pub mod error;
pub mod hash;
pub mod lifecycle;
pub mod scalar;
pub mod verify;
pub mod wire;

verus! {

/// The type of TEE proof to use.
#[derive(Clone, Copy, Debug, PartialEq, Eq, Structural)]
pub enum TEEProof {
    /// Use a Nitro TEE instance to create an integrity proof.
    NitroIntegrity,
    /// Do not create a TEE proof.
    NoProof,
}

} // verus!
