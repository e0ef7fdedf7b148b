//! The collision-resistant hash primitive `H`.
//!
//! `H` maps any vector of field elements to one field element.  It serves
//! three roles at once: compression function (addresses, Merkle nodes),
//! keyed PRF (serial numbers), and commitment function (note commitments).
//! The digest is computed by the Poseidon permutation of
//! `ark_crypto_primitives` under one fixed configuration; this module only
//! names the digest (`hash_of`) and never states what it is on given
//! inputs.

use vstd::prelude::*;

use ark_bn254::Fr;
use ark_crypto_primitives::crh::poseidon::CRH;
use ark_crypto_primitives::crh::CRHScheme;
use ark_crypto_primitives::sponge::poseidon::{find_poseidon_ark_and_mds, PoseidonConfig};
use ark_ff::{BigInt, PrimeField};

use crate::field::{arr_val, felt_from_arr, modulus, Felt};

verus! {

/// The round constants and MDS matrix of the hash, supplied to every hash
/// call as opaque immutable configuration.  The only constructor is
/// `get_poseidon_params`, so every value of this type holds the one fixed
/// configuration of the library; that is what justifies naming digests as
/// a function of the inputs alone.
#[verifier::external_body]
pub struct HashParams {
    cfg: PoseidonConfig<Fr>,
}

impl Clone for HashParams {
    /// Relies on the derived clone of `PoseidonConfig`: a copy of the same
    /// configuration.
    #[verifier::external_body]
    fn clone(&self) -> (r: Self) {
        HashParams { cfg: self.cfg.clone() }
    }
}

/// Relies on `find_poseidon_ark_and_mds` and `PoseidonConfig::new` of
/// `ark_crypto_primitives`: builds the fixed hash configuration of this
/// library (width 3: rate 2, capacity 1; S-box exponent 5; 8 full and 57
/// partial rounds, constants derived for the 254-bit BN254 scalar field).
#[verifier::external_body]
pub fn get_poseidon_params() -> (r: HashParams)
{
    let (ark, mds) = find_poseidon_ark_and_mds::<Fr>(254, 2, 8, 57, 0);
    HashParams { cfg: PoseidonConfig::new(8, 57, 5, mds, ark, 2, 1) }
}

/// The digest of `H` on a vector of field-element values.  Uninterpreted:
/// the digest is a pure function of the inputs, and nothing else is
/// assumed of it.
pub uninterp spec fn hash_of(inputs: Seq<nat>) -> nat;

/// The values represented by a sequence of field elements.
pub open spec fn seq_vals(s: Seq<Felt>) -> Seq<nat> {
    s.map_values(|f: Felt| f@)
}

/// Relies on the Poseidon `CRH::evaluate` of `ark_crypto_primitives` over
/// the fixed configuration: the digest depends on the absorbed field
/// elements alone.  The same function serves as the Merkle two-to-one
/// compression: per its source, `TwoToOneCRH::compress` absorbs left then
/// right into a fresh sponge exactly as `CRH::evaluate` does on a
/// two-element slice.
#[verifier::external_body]
fn hash_limbs(params: &HashParams, input: &Vec<Felt>) -> (r: [u64; 4])
    ensures
        arr_val(r) == hash_of(seq_vals(input@)),
        arr_val(r) < modulus(),
{
    let frs: Vec<Fr> = input.iter().map(
        |f| Fr::from_bigint(BigInt::new(f.arr())).unwrap(),
    ).collect();
    CRH::<Fr>::evaluate(&params.cfg, frs).unwrap().into_bigint().0
}

/// The digest of `H` on a vector of field elements.
pub fn poseidon_hash(params: &HashParams, input: &Vec<Felt>) -> (r: Felt)
    ensures
        r@ == hash_of(seq_vals(input@)),
{
    felt_from_arr(hash_limbs(params, input))
}

/// `H` of one element.
pub fn hash1(params: &HashParams, a: &Felt) -> (r: Felt)
    ensures
        r@ == hash_of(seq![a@]),
{
    let v: Vec<Felt> = vec![*a];
    proof {
        assert(seq_vals(v@) =~= seq![a@]);
    }
    poseidon_hash(params, &v)
}

/// `H` of two elements; also the Merkle two-to-one compression.
pub fn hash2(params: &HashParams, a: &Felt, b: &Felt) -> (r: Felt)
    ensures
        r@ == hash_of(seq![a@, b@]),
{
    let v: Vec<Felt> = vec![*a, *b];
    proof {
        assert(seq_vals(v@) =~= seq![a@, b@]);
    }
    poseidon_hash(params, &v)
}

/// `H` of three elements, the shape of a blinded address.
pub fn hash3(params: &HashParams, a: &Felt, b: &Felt, c: &Felt) -> (r: Felt)
    ensures
        r@ == hash_of(seq![a@, b@, c@]),
{
    let v: Vec<Felt> = vec![*a, *b, *c];
    proof {
        assert(seq_vals(v@) =~= seq![a@, b@, c@]);
    }
    poseidon_hash(params, &v)
}

/// `H` of four elements, the shape of a note commitment.
pub fn hash4(params: &HashParams, a: &Felt, b: &Felt, c: &Felt, d: &Felt) -> (r: Felt)
    ensures
        r@ == hash_of(seq![a@, b@, c@, d@]),
{
    let v: Vec<Felt> = vec![*a, *b, *c, *d];
    proof {
        assert(seq_vals(v@) =~= seq![a@, b@, c@, d@]);
    }
    poseidon_hash(params, &v)
}

/// `H` of six elements, the shape of a transfer commitment.
pub fn hash6(params: &HashParams, a: &Felt, b: &Felt, c: &Felt, d: &Felt, e: &Felt, f: &Felt) -> (r: Felt)
    ensures
        r@ == hash_of(seq![a@, b@, c@, d@, e@, f@]),
{
    let v: Vec<Felt> = vec![*a, *b, *c, *d, *e, *f];
    proof {
        assert(seq_vals(v@) =~= seq![a@, b@, c@, d@, e@, f@]);
    }
    poseidon_hash(params, &v)
}

} // verus!
