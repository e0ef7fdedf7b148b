//! The hash-preimage relation: the prover knows a message whose `H`
//! digest is the declared public value.
//!
//! Constraint 0: `digest = H(message)`.

use vstd::prelude::*;

use crate::circuits::MockingHashCircuit;
use crate::field::{fp_eq, random_fp, Felt};
use crate::hash::{get_poseidon_params, hash1, hash_of, HashParams};
use crate::Error;

verus! {

/// A populated hash-preimage relation: the digest is public, the
/// message private.
#[derive(Clone)]
pub struct PoseidonCircuit {
    pub hash_params: HashParams,
    pub digest: Option<Felt>,
    pub message: Option<Felt>,
}

impl PoseidonCircuit {
    /// Populates the relation.
    pub fn new(hash_params: HashParams, digest: Felt, message: Felt) -> (c: Self)
        ensures
            c.digest == Some(digest),
            c.message == Some(message),
    {
        PoseidonCircuit { hash_params, digest: Some(digest), message: Some(message) }
    }

    /// Both fields carry an assignment.
    pub open spec fn assigned(self) -> bool {
        self.digest is Some && self.message is Some
    }

    /// The relation: the declared digest is `H` of the message.
    pub open spec fn satisfied(self) -> bool {
        self.assigned() && self.digest.unwrap()@ == hash_of(seq![self.message.unwrap()@])
    }

    /// Decides the relation.
    pub fn check(&self) -> (res: Result<(), Error>)
        ensures
            match res {
                Ok(()) => self.satisfied(),
                Err(e) => match e {
                    Error::MissingAssignment => !self.assigned(),
                    Error::MalformedInput => false,
                    Error::Unsatisfied(j) => self.assigned() && j == 0 && !self.satisfied(),
                },
            },
    {
        let digest = match self.digest {
            Some(x) => x,
            None => { return Err(Error::MissingAssignment) },
        };
        let message = match self.message {
            Some(x) => x,
            None => { return Err(Error::MissingAssignment) },
        };
        let computed = hash1(&self.hash_params, &message);
        if !fp_eq(&digest, &computed) {
            return Err(Error::Unsatisfied(0));
        }
        Ok(())
    }
}

impl MockingHashCircuit for PoseidonCircuit {
    type F = Felt;

    type HashParam = HashParams;

    type Output = PoseidonCircuit;

    open spec fn output_ok(out: &PoseidonCircuit) -> bool {
        out.satisfied()
    }

    /// Hashes a random message and declares its digest.
    fn generate_circuit() -> (res: Result<PoseidonCircuit, Error>) {
        let hash_params = get_poseidon_params();
        let message = random_fp();
        let digest = hash1(&hash_params, &message);
        Ok(PoseidonCircuit::new(hash_params, digest, message))
    }
}

} // verus!
