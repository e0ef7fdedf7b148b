//! The scalar field of BN254, the field over which every note attribute,
//! hash digest and curve coordinate of this library lives.
//!
//! A `Felt` is the canonical representative of a residue modulo the prime
//! `modulus()`, stored as four 64-bit little-endian limbs.  Its view is the
//! represented integer, a `nat` strictly below the modulus (the type
//! invariant).  Arithmetic is carried out by `ark_bn254` behind trusted
//! wrappers whose contracts state the exact modular result.

use vstd::prelude::*;

use ark_bn254::Fr;
use ark_ff::{BigInt, PrimeField};

verus! {

/// The BN254 scalar field modulus, as an integer.
pub open spec fn modulus() -> nat {
    0x30644e72e131a029b85045b68181585d2833e84879b9709143e1f593f0000001nat
}

/// `(modulus() - 1) / 2`: the largest field element that this library
/// accepts as the encoding of a non-negative bounded quantity.
pub open spec fn half_modulus() -> nat {
    0x183227397098d014dc2822db40c0ac2e9419f4243cdcb848a1f0fac9f8000000nat
}

/// The order of the prime-order subgroup of the embedded Edwards curve;
/// scalars drawn for key wrapping lie below it.
pub open spec fn scalar_order() -> nat {
    0x60c89ce5c263405370a08b6d0302b0bab3eedb83920ee0a677297dc392126f1nat
}

/// `(a + b) mod p` over the integers.
pub open spec fn add_mod(a: nat, b: nat) -> nat {
    (((a + b) as int) % (modulus() as int)) as nat
}

/// `(a - b) mod p` over the integers (Euclidean remainder, hence in `[0, p)`).
pub open spec fn sub_mod(a: nat, b: nat) -> nat {
    ((a - b) % (modulus() as int)) as nat
}

/// `(a * b) mod p` over the integers.
pub open spec fn mul_mod(a: nat, b: nat) -> nat {
    (((a * b) as int) % (modulus() as int)) as nat
}

/// The integer spelled by four little-endian 64-bit limbs.
pub open spec fn limbs_val(l0: u64, l1: u64, l2: u64, l3: u64) -> nat {
    ((l0 as nat) + (l1 as nat) * 0x1_0000_0000_0000_0000nat
        + (l2 as nat) * 0x1_0000_0000_0000_0000_0000_0000_0000_0000nat
        + (l3 as nat) * 0x1_0000_0000_0000_0000_0000_0000_0000_0000_0000_0000_0000_0000nat)
        as nat
}

/// A canonical element of the BN254 scalar field: four little-endian
/// 64-bit limbs whose combined value is below the modulus.
#[derive(Clone, Copy, PartialEq, Eq, Structural, Debug)]
pub struct Felt {
    pub(crate) l0: u64,
    pub(crate) l1: u64,
    pub(crate) l2: u64,
    pub(crate) l3: u64,
}

impl Felt {
    /// The integer this element represents.
    pub closed spec fn val(self) -> nat {
        limbs_val(self.l0, self.l1, self.l2, self.l3)
    }

    /// Canonicity: the represented value is reduced modulo the prime.
    #[verifier::type_invariant]
    pub open spec fn wf(self) -> bool {
        self.val() < modulus()
    }
}

impl View for Felt {
    type V = nat;

    open spec fn view(&self) -> nat {
        self.val()
    }
}

/// Two canonical elements representing the same integer have the same limbs.
pub proof fn lemma_fp_injective(a: Felt, b: Felt)
    ensures
        (a@ == b@) <==> (a == b),
{
    if a@ == b@ {
        lemma_limbs_injective(a.l0, a.l1, a.l2, a.l3, b.l0, b.l1, b.l2, b.l3);
        assert(a == b);
    }
}

proof fn lemma_limbs_injective(
    a0: u64, a1: u64, a2: u64, a3: u64,
    b0: u64, b1: u64, b2: u64, b3: u64,
) by (nonlinear_arith)
    requires
        limbs_val(a0, a1, a2, a3) == limbs_val(b0, b1, b2, b3),
    ensures
        a0 == b0 && a1 == b1 && a2 == b2 && a3 == b3,
{
}

/// Limb-wise comparison agrees with comparison of the represented values.
proof fn lemma_limbs_ordered(
    a0: u64, a1: u64, a2: u64, a3: u64,
    b0: u64, b1: u64, b2: u64, b3: u64,
) by (nonlinear_arith)
    ensures
        (limbs_val(a0, a1, a2, a3) < limbs_val(b0, b1, b2, b3))
        <==> (a3 < b3
            || (a3 == b3 && a2 < b2)
            || (a3 == b3 && a2 == b2 && a1 < b1)
            || (a3 == b3 && a2 == b2 && a1 == b1 && a0 < b0)),
{
}

/// The value spelled by a four-limb array.
pub open spec fn arr_val(a: [u64; 4]) -> nat {
    limbs_val(a[0], a[1], a[2], a[3])
}

impl Felt {
    /// Embeds a machine integer into the field.
    pub fn from_u64(x: u64) -> (r: Felt)
        ensures
            r@ == x,
    {
        Felt { l0: x, l1: 0, l2: 0, l3: 0 }
    }

    /// Assembles an element from little-endian limbs; `None` when the
    /// limbs spell a value at or above the modulus.
    pub fn from_limbs(l0: u64, l1: u64, l2: u64, l3: u64) -> (r: Option<Felt>)
        ensures
            (r is Some) <==> limbs_val(l0, l1, l2, l3) < modulus(),
            r matches Some(f) ==> f@ == limbs_val(l0, l1, l2, l3),
    {
        proof {
            lemma_limbs_ordered(
                l0, l1, l2, l3,
                0x43e1f593f0000001, 0x2833e84879b97091, 0xb85045b68181585d, 0x30644e72e131a029,
            );
            assert(limbs_val(
                0x43e1f593f0000001, 0x2833e84879b97091, 0xb85045b68181585d, 0x30644e72e131a029,
            ) == modulus());
        }
        let below: bool = l3 < 0x30644e72e131a029
            || (l3 == 0x30644e72e131a029 && l2 < 0xb85045b68181585d)
            || (l3 == 0x30644e72e131a029 && l2 == 0xb85045b68181585d && l1 < 0x2833e84879b97091)
            || (l3 == 0x30644e72e131a029 && l2 == 0xb85045b68181585d && l1 == 0x2833e84879b97091
                && l0 < 0x43e1f593f0000001);
        if below {
            Some(Felt { l0, l1, l2, l3 })
        } else {
            None
        }
    }

    /// The little-endian limbs of the canonical representative, as an
    /// array.  Canonicity carries over from the type invariant.
    pub(crate) fn arr(&self) -> (r: [u64; 4])
        ensures
            limbs_val(r[0], r[1], r[2], r[3]) == self@,
            limbs_val(r[0], r[1], r[2], r[3]) < modulus(),
    {
        proof {
            use_type_invariant(*self);
        }
        [self.l0, self.l1, self.l2, self.l3]
    }

    /// The little-endian limbs of the canonical representative.
    pub fn limbs(&self) -> (r: (u64, u64, u64, u64))
        ensures
            self@ == limbs_val(r.0, r.1, r.2, r.3),
    {
        (self.l0, self.l1, self.l2, self.l3)
    }

    /// Whether this element is the additive identity.
    pub fn is_zero(&self) -> (r: bool)
        ensures
            r == (self@ == 0),
    {
        self.l0 == 0 && self.l1 == 0 && self.l2 == 0 && self.l3 == 0
    }

    /// Whether `self` represents a value strictly below `other`'s.
    pub fn lt(&self, other: &Felt) -> (r: bool)
        ensures
            r == (self@ < other@),
    {
        proof {
            lemma_limbs_ordered(
                self.l0, self.l1, self.l2, self.l3,
                other.l0, other.l1, other.l2, other.l3,
            );
        }
        self.l3 < other.l3
            || (self.l3 == other.l3 && self.l2 < other.l2)
            || (self.l3 == other.l3 && self.l2 == other.l2 && self.l1 < other.l1)
            || (self.l3 == other.l3 && self.l2 == other.l2 && self.l1 == other.l1
                && self.l0 < other.l0)
    }

    /// The range gate of the relations: accepts exactly the canonical
    /// representatives up to `(modulus() - 1) / 2`, so that a value which
    /// wrapped past the modulus under subtraction is rejected.
    pub fn le_half_modulus(&self) -> (r: bool)
        ensures
            r == (self@ <= half_modulus()),
    {
        let half = Felt {
            l0: 0xa1f0fac9f8000000,
            l1: 0x9419f4243cdcb848,
            l2: 0xdc2822db40c0ac2e,
            l3: 0x183227397098d014,
        };
        proof {
            assert(half.val() == half_modulus());
            assert(half.val() < modulus());
        }
        !half.lt(self)
    }
}

/// Executable equality that mirrors equality of the viewed values.
pub fn fp_eq(a: &Felt, b: &Felt) -> (r: bool)
    ensures
        r == (a@ == b@),
{
    proof {
        lemma_fp_injective(*a, *b);
    }
    a.l0 == b.l0 && a.l1 == b.l1 && a.l2 == b.l2 && a.l3 == b.l3
}

/// Boolean-conditioned selection: `a` when `flag` holds, `b` otherwise.
pub fn select(flag: bool, a: &Felt, b: &Felt) -> (r: Felt)
    ensures
        r == if flag { *a } else { *b },
{
    if flag { *a } else { *b }
}

/// Assembles a field element from limbs known to be canonical.
pub(crate) fn felt_from_arr(a: [u64; 4]) -> (r: Felt)
    requires
        arr_val(a) < modulus(),
    ensures
        r@ == arr_val(a),
{
    match Felt::from_limbs(a[0], a[1], a[2], a[3]) {
        Some(f) => f,
        None => Felt::from_u64(0),  // unreachable: the limbs are canonical
    }
}

/// Relies on `ark_bn254::Fr` addition: the sum of two field elements,
/// reduced modulo the BN254 scalar field prime.  Canonical limbs are
/// demanded, since decoding a value at or above the modulus fails.
#[verifier::external_body]
fn add_limbs_mod(a: [u64; 4], b: [u64; 4]) -> (r: [u64; 4])
    requires
        arr_val(a) < modulus(),
        arr_val(b) < modulus(),
    ensures
        arr_val(r) == add_mod(arr_val(a), arr_val(b)),
        arr_val(r) < modulus(),
{
    let x = Fr::from_bigint(BigInt::new(a)).unwrap();
    let y = Fr::from_bigint(BigInt::new(b)).unwrap();
    (x + y).into_bigint().0
}

/// Relies on `ark_bn254::Fr` subtraction: the difference of two field
/// elements, reduced modulo the BN254 scalar field prime.  Canonical
/// limbs are demanded, since decoding a value at or above the modulus
/// fails.
#[verifier::external_body]
fn sub_limbs_mod(a: [u64; 4], b: [u64; 4]) -> (r: [u64; 4])
    requires
        arr_val(a) < modulus(),
        arr_val(b) < modulus(),
    ensures
        arr_val(r) == sub_mod(arr_val(a), arr_val(b)),
        arr_val(r) < modulus(),
{
    let x = Fr::from_bigint(BigInt::new(a)).unwrap();
    let y = Fr::from_bigint(BigInt::new(b)).unwrap();
    (x - y).into_bigint().0
}

/// The field sum `(a + b) mod p`.
pub fn fp_add(a: &Felt, b: &Felt) -> (r: Felt)
    ensures
        r@ == add_mod(a@, b@),
{
    felt_from_arr(add_limbs_mod(a.arr(), b.arr()))
}

/// The field difference `(a - b) mod p`.
pub fn fp_sub(a: &Felt, b: &Felt) -> (r: Felt)
    ensures
        r@ == sub_mod(a@, b@),
{
    felt_from_arr(sub_limbs_mod(a.arr(), b.arr()))
}

/// Relies on `ark_bn254::Fr` multiplication: the product of two field
/// elements, reduced modulo the BN254 scalar field prime.  Canonical
/// limbs are demanded, since decoding a value at or above the modulus
/// fails.
#[verifier::external_body]
fn mul_limbs_mod(a: [u64; 4], b: [u64; 4]) -> (r: [u64; 4])
    requires
        arr_val(a) < modulus(),
        arr_val(b) < modulus(),
    ensures
        arr_val(r) == mul_mod(arr_val(a), arr_val(b)),
        arr_val(r) < modulus(),
{
    let x = Fr::from_bigint(BigInt::new(a)).unwrap();
    let y = Fr::from_bigint(BigInt::new(b)).unwrap();
    (x * y).into_bigint().0
}

/// The field product `(a * b) mod p`.
pub fn fp_mul(a: &Felt, b: &Felt) -> (r: Felt)
    ensures
        r@ == mul_mod(a@, b@),
{
    felt_from_arr(mul_limbs_mod(a.arr(), b.arr()))
}

/// The additive inverse, `(p - a) mod p`.
pub fn fp_neg(a: &Felt) -> (r: Felt)
    ensures
        r@ == sub_mod(0, a@),
{
    let zero = Felt::from_u64(0);
    fp_sub(&zero, a)
}

/// Relies on `ark_bn254::Fr::rand`: a field element drawn uniformly;
/// nothing is assumed of the outcome beyond canonicity.
#[verifier::external_body]
fn random_fr_limbs() -> (r: [u64; 4])
    ensures
        arr_val(r) < modulus(),
{
    let x: Fr = ark_std::UniformRand::rand(&mut rand::thread_rng());
    x.into_bigint().0
}

/// A field element drawn uniformly at random.
pub fn random_fp() -> (r: Felt)
{
    felt_from_arr(random_fr_limbs())
}

/// Relies on `ark_ed_on_bn254::Fr::rand`: a uniformly drawn scalar of the
/// embedded curve; every outcome lies below the subgroup order.
#[verifier::external_body]
fn random_scalar_limbs() -> (r: [u64; 4])
    ensures
        arr_val(r) < scalar_order(),
{
    let x: ark_ed_on_bn254::Fr = ark_std::UniformRand::rand(&mut rand::thread_rng());
    <ark_ed_on_bn254::Fr as PrimeField>::into_bigint(x).0
}

/// A key-wrap scalar drawn uniformly at random, below the subgroup
/// order.
pub fn random_scalar() -> (r: Felt)
    ensures
        r@ < scalar_order(),
{
    proof {
        assert(scalar_order() < modulus());
    }
    felt_from_arr(random_scalar_limbs())
}

} // verus!

// Arithmetic facts about `add_mod` and `sub_mod` that the relation layer
// builds on.
verus! {

/// A sum below the modulus is its own remainder.
pub proof fn lemma_add_mod_small(a: nat, b: nat)
    requires
        a + b < modulus(),
    ensures
        add_mod(a, b) == a + b,
{
    vstd::arithmetic::div_mod::lemma_small_mod((a + b) as nat, modulus());
}

/// For reduced operands, `sub_mod` is plain subtraction, wrapped by one
/// modulus when the subtrahend is larger.
pub proof fn lemma_sub_mod_cases(a: nat, b: nat)
    requires
        a < modulus(),
        b < modulus(),
    ensures
        b <= a ==> sub_mod(a, b) == a - b,
        a < b ==> sub_mod(a, b) == a - b + modulus(),
{
    let p = modulus() as int;
    if b <= a {
        vstd::arithmetic::div_mod::lemma_small_mod((a - b) as nat, modulus());
    } else {
        vstd::arithmetic::div_mod::lemma_mod_multiples_vanish(1, a - b, p);
        vstd::arithmetic::div_mod::lemma_small_mod((a - b + p) as nat, modulus());
    }
}

/// Adding `h` modulo the prime and then subtracting `h` modulo the prime
/// returns every reduced value unchanged, whatever `h` is.
pub proof fn lemma_add_then_sub_mod(h: nat, m: nat)
    requires
        m < modulus(),
    ensures
        sub_mod(add_mod(h, m), h) == m,
{
    let p = modulus() as int;
    let a = ((h + m) as int) % p;
    vstd::arithmetic::div_mod::lemma_sub_mod_noop_right(a, h as int, p);
    vstd::arithmetic::div_mod::lemma_sub_mod_noop((h + m) as int, h as int, p);
    vstd::arithmetic::div_mod::lemma_mod_twice((h + m) as int, p);
    vstd::arithmetic::div_mod::lemma_small_mod(m, modulus());
}

} // verus!

// The canonical little-endian byte encoding of a field element, used by
// the digest relation over SHA-256.
verus! {

/// 256 to the `k`.
spec fn pow256(k: nat) -> nat
    decreases k,
{
    if k == 0 {
        1
    } else {
        256 * pow256((k - 1) as nat)
    }
}

/// The eight little-endian bytes of one limb.
spec fn u64_le_bytes(x: u64) -> Seq<u8> {
    Seq::new(8, |i: int| (((x as nat) / pow256(i as nat)) % 256) as u8)
}

impl Felt {
    /// The 32-byte little-endian encoding of the canonical value: the
    /// four limbs, least significant first, each in little-endian bytes.
    pub closed spec fn le_bytes(self) -> Seq<u8> {
        u64_le_bytes(self.l0) + u64_le_bytes(self.l1) + u64_le_bytes(self.l2) + u64_le_bytes(
            self.l3,
        )
    }

    /// Emits the canonical 32-byte little-endian encoding.
    pub fn to_le_bytes(&self) -> (r: Vec<u8>)
        ensures
            r@ == self.le_bytes(),
            r@.len() == 32,
    {
        let mut out = u64_bytes(self.l0);
        let mut b1 = u64_bytes(self.l1);
        let mut b2 = u64_bytes(self.l2);
        let mut b3 = u64_bytes(self.l3);
        out.append(&mut b1);
        out.append(&mut b2);
        out.append(&mut b3);
        out
    }
}

/// Powers of 256 are positive.
proof fn lemma_pow256_pos(k: nat)
    ensures
        pow256(k) >= 1,
    decreases k,
{
    if k > 0 {
        lemma_pow256_pos((k - 1) as nat);
    }
}

/// One limb's little-endian bytes, by repeated division.
fn u64_bytes(x: u64) -> (r: Vec<u8>)
    ensures
        r@ == u64_le_bytes(x),
{
    let mut out: Vec<u8> = Vec::new();
    let mut cur: u64 = x;
    let mut j: usize = 0;
    proof {
        vstd::arithmetic::div_mod::lemma_div_basics(x as int);
        assert(pow256(0) == 1);
    }
    while j < 8
        invariant
            j <= 8,
            out@.len() == j,
            cur as nat == (x as nat) / pow256(j as nat),
            forall|t: int| 0 <= t < j ==> out@[t] == (((x as nat) / pow256(t as nat)) % 256) as u8,
        decreases 8 - j,
    {
        out.push((cur % 256) as u8);
        proof {
            lemma_pow256_pos(j as nat);
            vstd::arithmetic::div_mod::lemma_div_denominator(
                x as int,
                pow256(j as nat) as int,
                256,
            );
            assert(pow256((j + 1) as nat) == pow256(j as nat) * 256);
        }
        cur = cur / 256;
        j = j + 1;
    }
    proof {
        assert(out@ =~= u64_le_bytes(x));
    }
    out
}

} // verus!
