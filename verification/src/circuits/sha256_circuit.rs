//! The digest relation over SHA-256: the prover knows a field element
//! whose canonical little-endian byte encoding hashes to the declared
//! 32-byte digest.
//!
//! Constraint 0: `digest = SHA-256(le_bytes(message))`.

use vstd::prelude::*;

use sha2::Digest;

use crate::circuits::MockingHashCircuit;
use crate::field::Felt;
use crate::Error;

verus! {

/// The 32-byte SHA-256 digest of a byte string.  Uninterpreted: the
/// digest is a pure function of the bytes, and nothing else is assumed
/// of it.
pub uninterp spec fn sha256_of(bytes: Seq<u8>) -> Seq<u8>;

/// Relies on `sha2::Sha256` (through the `Digest` interface): the
/// 32-byte digest of the input bytes, a function of the bytes alone.
#[verifier::external_body]
fn sha256_digest(input: &Vec<u8>) -> (r: Vec<u8>)
    ensures
        r@ == sha256_of(input@),
        r@.len() == 32,
{
    sha2::Sha256::digest(input.as_slice()).to_vec()
}

/// A populated SHA-256 digest relation: the digest is public, the
/// message private.
#[derive(Clone)]
pub struct Sha256Circuit {
    pub digest: Option<Vec<u8>>,
    pub message: Option<Felt>,
}

impl Sha256Circuit {
    /// Populates the relation.
    pub fn new(digest: Vec<u8>, message: Felt) -> (c: Self)
        ensures
            c.digest matches Some(d) && d@ == digest@,
            c.message == Some(message),
    {
        Sha256Circuit { digest: Some(digest), message: Some(message) }
    }

    /// Both fields carry an assignment.
    pub open spec fn assigned(self) -> bool {
        self.digest is Some && self.message is Some
    }

    /// The declared digest has SHA-256's fixed width.
    pub open spec fn shaped(self) -> bool {
        self.digest.unwrap()@.len() == 32
    }

    /// The relation: the declared digest is SHA-256 of the message's
    /// canonical 32-byte little-endian encoding.
    pub open spec fn satisfied(self) -> bool {
        &&& self.assigned()
        &&& self.shaped()
        &&& self.digest.unwrap()@ == sha256_of(self.message.unwrap().le_bytes())
    }

    /// Decides the relation.
    pub fn check(&self) -> (res: Result<(), Error>)
        ensures
            match res {
                Ok(()) => self.satisfied(),
                Err(e) => match e {
                    Error::MissingAssignment => !self.assigned(),
                    Error::MalformedInput => self.assigned() && !self.shaped(),
                    Error::Unsatisfied(j) => self.assigned() && self.shaped() && j == 0
                        && !self.satisfied(),
                },
            },
    {
        let digest = match &self.digest {
            Some(x) => x,
            None => { return Err(Error::MissingAssignment) },
        };
        let message = match self.message {
            Some(x) => x,
            None => { return Err(Error::MissingAssignment) },
        };
        if digest.len() != 32 {
            return Err(Error::MalformedInput);
        }
        let bytes = message.to_le_bytes();
        let computed = sha256_digest(&bytes);
        if !bytes_eq(digest, &computed) {
            return Err(Error::Unsatisfied(0));
        }
        Ok(())
    }
}

/// Byte-string equality, element by element.
fn bytes_eq(a: &Vec<u8>, b: &Vec<u8>) -> (r: bool)
    ensures
        r == (a@ == b@),
{
    if a.len() != b.len() {
        proof {
            assert(a@ != b@);
        }
        return false;
    }
    let n = a.len();
    let mut i: usize = 0;
    while i < n
        invariant
            i <= n,
            a@.len() == n,
            b@.len() == n,
            forall|t: int| 0 <= t < i ==> a@[t] == b@[t],
        decreases n - i,
    {
        if a[i] != b[i] {
            return false;
        }
        i = i + 1;
    }
    proof {
        assert(a@ =~= b@);
    }
    true
}

impl MockingHashCircuit for Sha256Circuit {
    type F = Felt;

    type HashParam = ();

    type Output = Sha256Circuit;

    open spec fn output_ok(out: &Sha256Circuit) -> bool {
        out.satisfied()
    }

    /// Hashes the encoding of the field element five and declares its
    /// digest.
    fn generate_circuit() -> (res: Result<Sha256Circuit, Error>) {
        let message = Felt::from_u64(5);
        let bytes = message.to_le_bytes();
        let digest = sha256_digest(&bytes);
        Ok(Sha256Circuit::new(digest, message))
    }
}

} // verus!
