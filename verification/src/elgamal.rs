//! The asymmetric key-wrap layer of the hybrid encryption scheme.
//!
//! ElGamal over the embedded Edwards curve: for generator `G`, recipient
//! public key `pk`, ephemeral point `M` and fresh scalar `r`, the wrap is
//! the pair `(G^r, pk^r · M)`.  The recipient (or auditor) holding the
//! secret key recovers `M`, whose x-coordinate keys the symmetric body
//! cipher.  Everything here is verified composition of the curve
//! wrappers.

use vstd::prelude::*;

use crate::curve::{point_add, point_add_of, point_mul, point_mul_of, Point};
use crate::field::Felt;

verus! {

/// The public parameters of the key wrap: the group generator.
#[derive(Clone, Copy, PartialEq, Eq, Structural, Debug)]
pub struct Parameters {
    pub generator: Point,
}

/// The coordinates of the second wrap component, `pk^r · M`.
pub open spec fn wrap_body_of(pk: (nat, nat), m: (nat, nat), r: nat) -> (nat, nat) {
    let s = point_mul_of(pk.0, pk.1, r);
    point_add_of(s.0, s.1, m.0, m.1)
}

/// Derives the public key `G^sk` of a spend-authorization keypair.
pub fn keygen(params: &Parameters, sk: &Felt) -> (pk: Point)
    ensures
        pk@ == point_mul_of(params.generator@.0, params.generator@.1, sk@),
{
    point_mul(&params.generator, sk)
}

/// Wraps the ephemeral point `m` for the holder of `pk`: returns
/// `(G^r, pk^r · m)`.
pub fn encrypt(params: &Parameters, pk: &Point, m: &Point, r: &Felt) -> (c: (Point, Point))
    ensures
        c.0@ == point_mul_of(params.generator@.0, params.generator@.1, r@),
        c.1@ == wrap_body_of(pk@, m@, r@),
{
    let c1 = point_mul(&params.generator, r);
    let s = point_mul(pk, r);
    let c2 = point_add(&s, m);
    (c1, c2)
}

} // verus!
