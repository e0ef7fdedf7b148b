//! The arithmetic-relation layer of a privacy-preserving digital-currency
//! note system.
//!
//! Each monetary operation — registering a fresh note, spending and
//! splitting a note, receiving a transfer, settling a directional
//! exchange — is a relation over a public instance and a private witness.
//! This crate computes those relations natively: it derives commitments,
//! nullifiers, Merkle roots and auditor ciphertexts, checks a populated
//! relation constraint by constraint, and builds consistent
//! instance/witness pairs for testing and proving.

use vstd::prelude::*;

pub mod circuits;
pub mod curve;
pub mod elgamal;
pub mod field;
pub mod hash;
pub mod merkle;
pub mod symenc;

verus! {

/// The failure modes of relation checking.
#[derive(Clone, Copy, PartialEq, Eq, Structural, Debug)]
pub enum Error {
    /// A witness or instance field needed for the relation was never assigned.
    MissingAssignment,
    /// A supplied vector has the wrong length for its slot.
    MalformedInput,
    /// The witness does not satisfy the relation; the payload is the
    /// index of the first failing constraint.
    Unsatisfied(usize),
}

} // verus!
