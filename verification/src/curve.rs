//! The elliptic-curve group of the spend-authorization and key-wrap layer.
//!
//! A `Point` is an affine point of the twisted Edwards curve embedded over
//! the BN254 scalar field (`ark_ed_on_bn254`, Baby Jubjub), held as its
//! two coordinates.  The type invariant keeps every point on the curve:
//! the equation `x^2 + y^2 = 1 + d*x^2*y^2 (mod p)` is a spec function
//! (`on_curve`), the checked constructor `Point::new` decides it at run
//! time, and the group producers preserve it.  On curve points the
//! complete twisted Edwards formulas are total, so the trusted wrappers
//! around `ark_ec` never panic on inputs their contracts admit.  Scalar
//! multiplication and addition results are pure functions of the
//! coordinates and scalar, named by `point_mul_of` and `point_add_of`.

use vstd::prelude::*;

use ark_bn254::Fr;
use ark_ec::{CurveGroup, Group};
use ark_ed_on_bn254::{EdwardsAffine, EdwardsProjective};
use ark_ff::{BigInt, PrimeField};

use crate::field::{add_mod, arr_val, felt_from_arr, fp_add, fp_eq, fp_mul, modulus, mul_mod, Felt};

verus! {

/// The coefficient `d = 168696/168700 mod p` of the curve equation, as
/// the curve's own source states it.
pub open spec fn coeff_d() -> nat {
    0x1575bd81821016c07a5fd2dee78446612498beee8e01a829736c2b06fb281473nat
}

/// The Baby Jubjub equation `x^2 + y^2 = 1 + d*x^2*y^2 (mod p)`; the
/// curve's `a` coefficient is one.
pub open spec fn on_curve(x: nat, y: nat) -> bool {
    add_mod(mul_mod(x, x), mul_mod(y, y)) == add_mod(
        1,
        mul_mod(coeff_d(), mul_mod(mul_mod(x, x), mul_mod(y, y))),
    )
}

/// An affine point of the embedded Edwards curve, by its coordinates.
#[derive(Clone, Copy, PartialEq, Eq, Structural, Debug)]
pub struct Point {
    pub(crate) x: Felt,
    pub(crate) y: Felt,
}

impl Point {
    /// The coordinate values.
    pub closed spec fn coords(self) -> (nat, nat) {
        (self.x@, self.y@)
    }

    /// Membership of the curve: every reachable point satisfies the
    /// curve equation.
    #[verifier::type_invariant]
    pub open spec fn wf(self) -> bool {
        on_curve(self.coords().0, self.coords().1)
    }

    /// Assembles a point from its coordinates; `None` when they do not
    /// satisfy the curve equation.
    pub fn new(x: Felt, y: Felt) -> (r: Option<Point>)
        ensures
            (r is Some) <==> on_curve(x@, y@),
            r matches Some(p) ==> p@ == (x@, y@),
    {
        let xx = fp_mul(&x, &x);
        let yy = fp_mul(&y, &y);
        let lhs = fp_add(&xx, &yy);
        let d = Felt::from_limbs(
            0x736c2b06fb281473,
            0x2498beee8e01a829,
            0x7a5fd2dee7844661,
            0x1575bd81821016c0,
        );
        let d = match d {
            Some(f) => f,
            None => { return None },  // unreachable: the coefficient is canonical
        };
        proof {
            assert(d@ == coeff_d());
        }
        let one = Felt::from_u64(1);
        let rhs = fp_add(&one, &fp_mul(&d, &fp_mul(&xx, &yy)));
        if fp_eq(&lhs, &rhs) {
            Some(Point { x, y })
        } else {
            None
        }
    }

    /// The x-coordinate.
    pub fn x(&self) -> (r: Felt)
        ensures
            r@ == self@.0,
    {
        self.x
    }

    /// The y-coordinate.
    pub fn y(&self) -> (r: Felt)
        ensures
            r@ == self@.1,
    {
        self.y
    }
}

impl View for Point {
    type V = (nat, nat);

    open spec fn view(&self) -> (nat, nat) {
        self.coords()
    }
}

/// The view of a point is the pair of its coordinate values.
pub(crate) broadcast proof fn lemma_point_view(p: Point)
    ensures
        (#[trigger] p@) == (p.x@, p.y@),
{
}

/// Two points with the same coordinate values are the same point.
pub proof fn lemma_point_injective(a: Point, b: Point)
    ensures
        (a@ == b@) <==> (a == b),
{
    crate::field::lemma_fp_injective(a.x, b.x);
    crate::field::lemma_fp_injective(a.y, b.y);
}

/// Executable equality that mirrors equality of the viewed coordinates.
pub fn point_eq(a: &Point, b: &Point) -> (r: bool)
    ensures
        r == (a@ == b@),
{
    crate::field::fp_eq(&a.x, &b.x) && crate::field::fp_eq(&a.y, &b.y)
}

/// The coordinates of the scalar multiple `[s]P` of the point with
/// coordinates `(x, y)`.  Uninterpreted: a pure function of its arguments.
pub uninterp spec fn point_mul_of(x: nat, y: nat, s: nat) -> (nat, nat);

/// The coordinates of the group sum of the points with coordinates
/// `(ax, ay)` and `(bx, by)`.  Uninterpreted: a pure function of its
/// arguments.
pub uninterp spec fn point_add_of(ax: nat, ay: nat, bx: nat, by: nat) -> (nat, nat);

/// Relies on `ark_ed_on_bn254` scalar multiplication (`mul_bigint` on the
/// projective group): the multiple of the point with the given
/// coordinate limbs by the scalar's integer value, determined by the
/// coordinates and scalar alone.  Canonical limbs are demanded, since
/// decoding a value at or above the modulus fails; a point of the curve
/// is demanded, since the complete twisted Edwards formulas are total
/// exactly there (`d` is a non-square), and the group law keeps the
/// result on the curve.
#[verifier::external_body]
fn mul_limbs(px: [u64; 4], py: [u64; 4], s: [u64; 4]) -> (r: ([u64; 4], [u64; 4]))
    requires
        arr_val(px) < modulus(),
        arr_val(py) < modulus(),
        arr_val(s) < modulus(),
        on_curve(arr_val(px), arr_val(py)),
    ensures
        (arr_val(r.0), arr_val(r.1)) == point_mul_of(arr_val(px), arr_val(py), arr_val(s)),
        arr_val(r.0) < modulus(),
        arr_val(r.1) < modulus(),
        on_curve(arr_val(r.0), arr_val(r.1)),
{
    let x = Fr::from_bigint(BigInt::new(px)).unwrap();
    let y = Fr::from_bigint(BigInt::new(py)).unwrap();
    let a = EdwardsProjective::from(EdwardsAffine::new_unchecked(x, y));
    let q = a.mul_bigint(BigInt::new(s)).into_affine();
    (q.x.into_bigint().0, q.y.into_bigint().0)
}

/// Relies on `ark_ed_on_bn254` group addition: the sum of the two points
/// with the given coordinate limbs, determined by their coordinates
/// alone.  Canonical limbs are demanded, since decoding a value at or
/// above the modulus fails; points of the curve are demanded, since the
/// complete twisted Edwards formulas are total exactly there (`d` is a
/// non-square), and the group law keeps the sum on the curve.
#[verifier::external_body]
fn add_point_limbs(px: [u64; 4], py: [u64; 4], qx: [u64; 4], qy: [u64; 4]) -> (r: (
    [u64; 4],
    [u64; 4],
))
    requires
        arr_val(px) < modulus(),
        arr_val(py) < modulus(),
        arr_val(qx) < modulus(),
        arr_val(qy) < modulus(),
        on_curve(arr_val(px), arr_val(py)),
        on_curve(arr_val(qx), arr_val(qy)),
    ensures
        (arr_val(r.0), arr_val(r.1)) == point_add_of(
            arr_val(px),
            arr_val(py),
            arr_val(qx),
            arr_val(qy),
        ),
        arr_val(r.0) < modulus(),
        arr_val(r.1) < modulus(),
        on_curve(arr_val(r.0), arr_val(r.1)),
{
    let a = EdwardsAffine::new_unchecked(
        Fr::from_bigint(BigInt::new(px)).unwrap(),
        Fr::from_bigint(BigInt::new(py)).unwrap(),
    );
    let b = EdwardsAffine::new_unchecked(
        Fr::from_bigint(BigInt::new(qx)).unwrap(),
        Fr::from_bigint(BigInt::new(qy)).unwrap(),
    );
    let s = (EdwardsProjective::from(a) + EdwardsProjective::from(b)).into_affine();
    (s.x.into_bigint().0, s.y.into_bigint().0)
}

/// Assembles an affine point from canonical, on-curve coordinate limbs.
fn point_from_limbs(c: ([u64; 4], [u64; 4])) -> (r: Point)
    requires
        arr_val(c.0) < modulus(),
        arr_val(c.1) < modulus(),
        on_curve(arr_val(c.0), arr_val(c.1)),
    ensures
        r@ == (arr_val(c.0), arr_val(c.1)),
{
    Point { x: felt_from_arr(c.0), y: felt_from_arr(c.1) }
}

/// The scalar multiple `[s]P`.
pub fn point_mul(p: &Point, s: &Felt) -> (r: Point)
    ensures
        r@ == point_mul_of(p@.0, p@.1, s@),
{
    proof {
        use_type_invariant(*p);
    }
    point_from_limbs(mul_limbs(p.x.arr(), p.y.arr(), s.arr()))
}

/// The group sum of two points.
pub fn point_add(p: &Point, q: &Point) -> (r: Point)
    ensures
        r@ == point_add_of(p@.0, p@.1, q@.0, q@.1),
{
    proof {
        use_type_invariant(*p);
        use_type_invariant(*q);
    }
    point_from_limbs(add_point_limbs(p.x.arr(), p.y.arr(), q.x.arr(), q.y.arr()))
}

/// Relies on `ark_ed_on_bn254::EdwardsAffine::generator`: the fixed
/// generator of the prime-order subgroup, whose coordinates stand as
/// constants in the curve's own source; a generator lies on its curve.
#[verifier::external_body]
fn generator_limbs() -> (r: ([u64; 4], [u64; 4]))
    ensures
        arr_val(r.0)
            == 0x2b8cfd91b905cae31d41e7dedf4a927ee3bc429aad7e344d59d2810d82876c32nat,
        arr_val(r.1)
            == 0x2aaa6c24a758209e90aced1f10277b762a7c1115dbc0e16ac276fc2c671a861fnat,
        on_curve(arr_val(r.0), arr_val(r.1)),
{
    let g = <EdwardsAffine as ark_ec::AffineRepr>::generator();
    (g.x.into_bigint().0, g.y.into_bigint().0)
}

/// The fixed generator of the prime-order subgroup.  Every call returns
/// the same point.
pub fn te_generator() -> (r: Point)
    ensures
        r@ == (
            0x2b8cfd91b905cae31d41e7dedf4a927ee3bc429aad7e344d59d2810d82876c32nat,
            0x2aaa6c24a758209e90aced1f10277b762a7c1115dbc0e16ac276fc2c671a861fnat,
        ),
{
    point_from_limbs(generator_limbs())
}

/// Relies on `ark_ed_on_bn254::EdwardsProjective::rand`: a point drawn
/// at random by rejection sampling on the curve; nothing is assumed of
/// the outcome beyond canonicity and curve membership.
#[verifier::external_body]
fn random_point_limbs() -> (r: ([u64; 4], [u64; 4]))
    ensures
        arr_val(r.0) < modulus(),
        arr_val(r.1) < modulus(),
        on_curve(arr_val(r.0), arr_val(r.1)),
{
    let p: EdwardsProjective = ark_std::UniformRand::rand(&mut rand::thread_rng());
    let a = p.into_affine();
    (a.x.into_bigint().0, a.y.into_bigint().0)
}

/// A point of the curve drawn at random.
pub fn random_point() -> (r: Point)
{
    point_from_limbs(random_point_limbs())
}

} // verus!
