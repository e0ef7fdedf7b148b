//! The transaction relations: Register, Send, Receive and Exchange, and
//! the two single-primitive relations over the hash and SHA-256.
//!
//! Each relation is a struct holding public instance and private witness,
//! every field optional (unassigned until populated).  `check` decides
//! the relation constraint by constraint and reports the first failure;
//! `generate_circuit` builds a consistent instance/witness pair.

use vstd::prelude::*;

use crate::Error;

pub mod exchange_circuit;
pub mod poseidon_circuit;
pub mod receive_circuit;
pub mod register_circuit;
pub mod send_circuit;
pub mod sha256_circuit;

verus! {

/// A relation that can populate itself with a consistent mocking
/// instance/witness pair for a tree of the given height.
pub trait MockingCircuit {
    /// The field of the relation's values.
    type F;

    /// The configuration of the hash primitive.
    type HashParam;

    /// The populated relation.
    type Output;

    /// What the builder guarantees of its output.
    spec fn output_ok(out: &Self::Output) -> bool;

    /// Which tree heights the builder accepts: a relation that proves
    /// membership needs a height its mocking path can realize, while a
    /// relation that involves no tree accepts any argument and ignores
    /// it.
    spec fn height_ok(tree_height: u64) -> bool;

    /// Builds a populated relation that satisfies itself.
    fn generate_circuit(tree_height: u64) -> (res: Result<Self::Output, Error>)
        requires
            Self::height_ok(tree_height),
        ensures
            res is Ok,
            res matches Ok(c) ==> Self::output_ok(&c),
    ;
}

/// As `MockingCircuit`, for relations over the hash primitive alone,
/// which involve no tree.
pub trait MockingHashCircuit {
    /// The field of the relation's values.
    type F;

    /// The configuration of the hash primitive.
    type HashParam;

    /// The populated relation.
    type Output;

    /// What the builder guarantees of its output.
    spec fn output_ok(out: &Self::Output) -> bool;

    /// Builds a populated relation that satisfies itself.
    fn generate_circuit() -> (res: Result<Self::Output, Error>)
        ensures
            res is Ok,
            res matches Ok(c) ==> Self::output_ok(&c),
    ;
}

} // verus!
