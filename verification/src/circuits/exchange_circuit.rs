//! The Exchange relation: settle a value transfer whose direction
//! (credit or debit) is a first-class boolean, layered on the same
//! note/nullifier machinery as Send and mirrored in an independently
//! blinded, homomorphically additive commitment chain over the
//! commitment key `ck`.
//!
//! Constraints, in checking order:
//!   0: `pk = G^sk` (ownership)
//!   1: `pk_d = ck0^{sk_d0} · ck1^{sk_d1}` (derived directional keypair)
//!   2: `addr = H(pk.x, pk.y)` (address binding)
//!   3: `addr_d = H(pk_d.x, pk_d.y)` (directional address binding)
//!   4: `v != 0` (a settlement moves value)
//!   5: `v` lies in the bounded range
//!   6: `v_cur` lies in the bounded range
//!   7: `v_cur_d` lies in the bounded range
//!   8: the selected branch `flag ? v_cur_d - v : v_cur - v` lies in the
//!      bounded range
//!   9: `cm_cur = H(addr, v_cur, sn_cur, o_cur)` (current commitment)
//!  10: Merkle membership of `cm_cur` at `leaf_pos` under root `rt`
//!  11: `sn_cur = H(sk, o_cur)` (current serial number)
//!  12: `sn_new = H(sk, o_new)` (successor serial number)
//!  13: `cm_new = H(addr, flag ? v_cur + v : v_cur - v, sn_new, o_new)`
//!  14: `cm_cur_d = ck0^{v_cur_d} · ck1^{o_cur_d}` (blinded current)
//!  15: `cm_v_d = ck0^{flag ? -v : v} · ck1^{o_v_d}` (blinded delta)
//!  16: `cm_new_d = cm_cur_d · cm_v_d` (homomorphic additivity)
//!  17: key wrap: `(g_r, k_a) = (G^r, apk^r · k)`
//!  18: the symmetric key is the x-coordinate of the wrapped point
//!  19 + i, for slots i = 0..5: `ct_bar[i] = H(k_x, i) + plain[i]` with
//!      plaintext `(pk.x, pk.y, addr_d, v, flag, o_v_d)`

use vstd::prelude::*;

use crate::circuits::MockingCircuit;
use crate::curve::{point_add, point_add_of, point_eq, point_mul, point_mul_of, random_point, Point};
use crate::elgamal;
use crate::elgamal::wrap_body_of;
use crate::field::{
    add_mod, fp_add, fp_eq, fp_neg, fp_sub, half_modulus, random_fp, random_scalar, sub_mod, Felt,
};
use crate::hash::{get_poseidon_params, hash2, hash4, hash_of, seq_vals, HashParams};
use crate::merkle::{get_mocking_merkle_tree, Path};
use crate::symenc::{cipher_slot, SymmetricKey};
use crate::Error;

verus! {

broadcast use crate::curve::lemma_point_view;

/// The public instance of an Exchange operation.
#[derive(Clone)]
pub struct ExchangeInstance {
    pub rt: Option<Felt>,
    pub ck: Option<Vec<Point>>,
    pub addr_d: Option<Felt>,
    pub sn_cur: Option<Felt>,
    pub cm_new: Option<Felt>,
    pub cm_new_d: Option<Point>,
    pub cm_v_d: Option<Point>,
    pub ct_bar: Option<Vec<Felt>>,
    pub apk: Option<Point>,
    pub g_r: Option<Point>,
    pub k_a: Option<Point>,
}

/// The private witness of an Exchange operation.
#[derive(Clone)]
pub struct ExchangeWitness {
    pub sk: Option<Felt>,
    pub pk: Option<Point>,
    pub sk_d: Option<Vec<Felt>>,
    pub pk_d: Option<Point>,
    pub addr: Option<Felt>,
    pub v: Option<Felt>,
    pub v_cur: Option<Felt>,
    pub v_cur_d: Option<Felt>,
    pub o_cur: Option<Felt>,
    pub o_cur_d: Option<Felt>,
    pub o_new: Option<Felt>,
    pub o_v_d: Option<Felt>,
    pub sn_new: Option<Felt>,
    pub cm_cur: Option<Felt>,
    pub cm_cur_d: Option<Point>,
    pub flag: Option<bool>,
    pub leaf_pos: Option<u32>,
    pub tree_proof: Option<Path>,
    pub k: Option<Point>,
    pub r: Option<Felt>,
    pub k_x: Option<SymmetricKey>,
}

/// A populated Exchange relation.
#[derive(Clone)]
pub struct ExchangeCircuit {
    pub hash_params: HashParams,
    pub generator: Point,
    pub instance: ExchangeInstance,
    pub witness: ExchangeWitness,
}

impl ExchangeCircuit {
    /// How many constraints the relation has.
    pub open spec fn num_constraints() -> int {
        25
    }

    /// Every instance and witness field carries an assignment.
    pub open spec fn assigned(self) -> bool {
        &&& self.instance.rt is Some
        &&& self.instance.ck is Some
        &&& self.instance.addr_d is Some
        &&& self.instance.sn_cur is Some
        &&& self.instance.cm_new is Some
        &&& self.instance.cm_new_d is Some
        &&& self.instance.cm_v_d is Some
        &&& self.instance.ct_bar is Some
        &&& self.instance.apk is Some
        &&& self.instance.g_r is Some
        &&& self.instance.k_a is Some
        &&& self.witness.sk is Some
        &&& self.witness.pk is Some
        &&& self.witness.sk_d is Some
        &&& self.witness.pk_d is Some
        &&& self.witness.addr is Some
        &&& self.witness.v is Some
        &&& self.witness.v_cur is Some
        &&& self.witness.v_cur_d is Some
        &&& self.witness.o_cur is Some
        &&& self.witness.o_cur_d is Some
        &&& self.witness.o_new is Some
        &&& self.witness.o_v_d is Some
        &&& self.witness.sn_new is Some
        &&& self.witness.cm_cur is Some
        &&& self.witness.cm_cur_d is Some
        &&& self.witness.flag is Some
        &&& self.witness.leaf_pos is Some
        &&& self.witness.tree_proof is Some
        &&& self.witness.k is Some
        &&& self.witness.r is Some
        &&& self.witness.k_x is Some
    }

    /// The commitment key has its two components, the directional secret
    /// key its two scalars, and the auditor ciphertext its six slots.
    pub open spec fn shaped(self) -> bool {
        &&& self.instance.ck.unwrap()@.len() == 2
        &&& self.witness.sk_d.unwrap()@.len() == 2
        &&& self.instance.ct_bar.unwrap()@.len() == 6
    }

    /// The directional flag as a field value.
    pub open spec fn flag_val(self) -> nat {
        if self.witness.flag.unwrap() {
            1nat
        } else {
            0nat
        }
    }

    /// The auditor plaintext vector, in its fixed slot order.
    pub open spec fn plain(self) -> Seq<nat> {
        let pk = self.witness.pk.unwrap()@;
        seq![
            pk.0,
            pk.1,
            self.instance.addr_d.unwrap()@,
            self.witness.v.unwrap()@,
            self.flag_val(),
            self.witness.o_v_d.unwrap()@,
        ]
    }

    /// Constraint `j` of the relation.
    pub open spec fn constraint(self, j: int) -> bool
        recommends
            self.assigned(),
            self.shaped(),
    {
        let g = self.generator@;
        let sk = self.witness.sk.unwrap()@;
        let pk = self.witness.pk.unwrap()@;
        let sk_d = seq_vals(self.witness.sk_d.unwrap()@);
        let pk_d = self.witness.pk_d.unwrap()@;
        let addr = self.witness.addr.unwrap()@;
        let v = self.witness.v.unwrap()@;
        let v_cur = self.witness.v_cur.unwrap()@;
        let v_cur_d = self.witness.v_cur_d.unwrap()@;
        let o_cur = self.witness.o_cur.unwrap()@;
        let o_cur_d = self.witness.o_cur_d.unwrap()@;
        let o_new = self.witness.o_new.unwrap()@;
        let o_v_d = self.witness.o_v_d.unwrap()@;
        let sn_new = self.witness.sn_new.unwrap()@;
        let cm_cur = self.witness.cm_cur.unwrap()@;
        let cm_cur_d = self.witness.cm_cur_d.unwrap()@;
        let flag = self.witness.flag.unwrap();
        let pos = self.witness.leaf_pos.unwrap() as nat;
        let proof_path = self.witness.tree_proof.unwrap();
        let k = self.witness.k.unwrap()@;
        let r = self.witness.r.unwrap()@;
        let kx = self.witness.k_x.unwrap().k@;
        let rt = self.instance.rt.unwrap()@;
        let ck = self.instance.ck.unwrap()@;
        let ck0 = ck[0]@;
        let ck1 = ck[1]@;
        let addr_d = self.instance.addr_d.unwrap()@;
        let sn_cur = self.instance.sn_cur.unwrap()@;
        let cm_new = self.instance.cm_new.unwrap()@;
        let cm_new_d = self.instance.cm_new_d.unwrap()@;
        let cm_v_d = self.instance.cm_v_d.unwrap()@;
        let apk = self.instance.apk.unwrap()@;
        let ct = seq_vals(self.instance.ct_bar.unwrap()@);
        if j == 0 {
            pk == point_mul_of(g.0, g.1, sk)
        } else if j == 1 {
            pk_d == {
                let a = point_mul_of(ck0.0, ck0.1, sk_d[0]);
                let b = point_mul_of(ck1.0, ck1.1, sk_d[1]);
                point_add_of(a.0, a.1, b.0, b.1)
            }
        } else if j == 2 {
            addr == hash_of(seq![pk.0, pk.1])
        } else if j == 3 {
            addr_d == hash_of(seq![pk_d.0, pk_d.1])
        } else if j == 4 {
            v != 0
        } else if j == 5 {
            v <= half_modulus()
        } else if j == 6 {
            v_cur <= half_modulus()
        } else if j == 7 {
            v_cur_d <= half_modulus()
        } else if j == 8 {
            (if flag {
                sub_mod(v_cur_d, v)
            } else {
                sub_mod(v_cur, v)
            }) <= half_modulus()
        } else if j == 9 {
            cm_cur == hash_of(seq![addr, v_cur, sn_cur, o_cur])
        } else if j == 10 {
            proof_path.membership_holds(pos, seq![cm_cur], rt)
        } else if j == 11 {
            sn_cur == hash_of(seq![sk, o_cur])
        } else if j == 12 {
            sn_new == hash_of(seq![sk, o_new])
        } else if j == 13 {
            cm_new == hash_of(
                seq![
                    addr,
                    if flag {
                        add_mod(v_cur, v)
                    } else {
                        sub_mod(v_cur, v)
                    },
                    sn_new,
                    o_new,
                ],
            )
        } else if j == 14 {
            cm_cur_d == {
                let a = point_mul_of(ck0.0, ck0.1, v_cur_d);
                let b = point_mul_of(ck1.0, ck1.1, o_cur_d);
                point_add_of(a.0, a.1, b.0, b.1)
            }
        } else if j == 15 {
            cm_v_d == {
                let vd = if flag {
                    sub_mod(0, v)
                } else {
                    v
                };
                let a = point_mul_of(ck0.0, ck0.1, vd);
                let b = point_mul_of(ck1.0, ck1.1, o_v_d);
                point_add_of(a.0, a.1, b.0, b.1)
            }
        } else if j == 16 {
            cm_new_d == point_add_of(cm_cur_d.0, cm_cur_d.1, cm_v_d.0, cm_v_d.1)
        } else if j == 17 {
            self.instance.g_r.unwrap()@ == point_mul_of(g.0, g.1, r)
                && self.instance.k_a.unwrap()@ == wrap_body_of(apk, k, r)
        } else if j == 18 {
            kx == k.0
        } else if 19 <= j < 25 {
            ct[j - 19] == cipher_slot(kx, (j - 19) as nat, self.plain()[j - 19])
        } else {
            true
        }
    }

    /// The whole relation: populated, well-shaped, every constraint met.
    pub open spec fn satisfied(self) -> bool {
        &&& self.assigned()
        &&& self.shaped()
        &&& forall|j: int| 0 <= j < Self::num_constraints() ==> self.constraint(j)
    }

    /// Decides the relation.  Reports a missing assignment, a malformed
    /// vector shape, or the first failing constraint.
    pub fn check(&self) -> (res: Result<(), Error>)
        ensures
            match res {
                Ok(()) => self.satisfied(),
                Err(e) => match e {
                    Error::MissingAssignment => !self.assigned(),
                    Error::MalformedInput => self.assigned() && !self.shaped(),
                    Error::Unsatisfied(j) => self.assigned() && self.shaped()
                        && 0 <= j < Self::num_constraints() && !self.constraint(j as int)
                        && (forall|t: int| 0 <= t < j ==> self.constraint(t)),
                },
            },
    {
        let rt = match self.instance.rt {
            Some(x) => x,
            None => { return Err(Error::MissingAssignment) },
        };
        let ck = match &self.instance.ck {
            Some(x) => x,
            None => { return Err(Error::MissingAssignment) },
        };
        let addr_d = match self.instance.addr_d {
            Some(x) => x,
            None => { return Err(Error::MissingAssignment) },
        };
        let sn_cur = match self.instance.sn_cur {
            Some(x) => x,
            None => { return Err(Error::MissingAssignment) },
        };
        let cm_new = match self.instance.cm_new {
            Some(x) => x,
            None => { return Err(Error::MissingAssignment) },
        };
        let cm_new_d = match self.instance.cm_new_d {
            Some(x) => x,
            None => { return Err(Error::MissingAssignment) },
        };
        let cm_v_d = match self.instance.cm_v_d {
            Some(x) => x,
            None => { return Err(Error::MissingAssignment) },
        };
        let ct_bar = match &self.instance.ct_bar {
            Some(x) => x,
            None => { return Err(Error::MissingAssignment) },
        };
        let apk = match self.instance.apk {
            Some(x) => x,
            None => { return Err(Error::MissingAssignment) },
        };
        let g_r = match self.instance.g_r {
            Some(x) => x,
            None => { return Err(Error::MissingAssignment) },
        };
        let k_a = match self.instance.k_a {
            Some(x) => x,
            None => { return Err(Error::MissingAssignment) },
        };
        let sk = match self.witness.sk {
            Some(x) => x,
            None => { return Err(Error::MissingAssignment) },
        };
        let pk = match self.witness.pk {
            Some(x) => x,
            None => { return Err(Error::MissingAssignment) },
        };
        let sk_d = match &self.witness.sk_d {
            Some(x) => x,
            None => { return Err(Error::MissingAssignment) },
        };
        let pk_d = match self.witness.pk_d {
            Some(x) => x,
            None => { return Err(Error::MissingAssignment) },
        };
        let addr = match self.witness.addr {
            Some(x) => x,
            None => { return Err(Error::MissingAssignment) },
        };
        let v = match self.witness.v {
            Some(x) => x,
            None => { return Err(Error::MissingAssignment) },
        };
        let v_cur = match self.witness.v_cur {
            Some(x) => x,
            None => { return Err(Error::MissingAssignment) },
        };
        let v_cur_d = match self.witness.v_cur_d {
            Some(x) => x,
            None => { return Err(Error::MissingAssignment) },
        };
        let o_cur = match self.witness.o_cur {
            Some(x) => x,
            None => { return Err(Error::MissingAssignment) },
        };
        let o_cur_d = match self.witness.o_cur_d {
            Some(x) => x,
            None => { return Err(Error::MissingAssignment) },
        };
        let o_new = match self.witness.o_new {
            Some(x) => x,
            None => { return Err(Error::MissingAssignment) },
        };
        let o_v_d = match self.witness.o_v_d {
            Some(x) => x,
            None => { return Err(Error::MissingAssignment) },
        };
        let sn_new = match self.witness.sn_new {
            Some(x) => x,
            None => { return Err(Error::MissingAssignment) },
        };
        let cm_cur = match self.witness.cm_cur {
            Some(x) => x,
            None => { return Err(Error::MissingAssignment) },
        };
        let cm_cur_d = match self.witness.cm_cur_d {
            Some(x) => x,
            None => { return Err(Error::MissingAssignment) },
        };
        let flag = match self.witness.flag {
            Some(x) => x,
            None => { return Err(Error::MissingAssignment) },
        };
        let leaf_pos = match self.witness.leaf_pos {
            Some(x) => x,
            None => { return Err(Error::MissingAssignment) },
        };
        let tree_proof = match &self.witness.tree_proof {
            Some(x) => x,
            None => { return Err(Error::MissingAssignment) },
        };
        let k = match self.witness.k {
            Some(x) => x,
            None => { return Err(Error::MissingAssignment) },
        };
        let r = match self.witness.r {
            Some(x) => x,
            None => { return Err(Error::MissingAssignment) },
        };
        let k_x = match self.witness.k_x {
            Some(x) => x,
            None => { return Err(Error::MissingAssignment) },
        };
        if !(ck.len() == 2 && sk_d.len() == 2 && ct_bar.len() == 6) {
            return Err(Error::MalformedInput);
        }

        let params = &self.hash_params;
        let pk_computed = point_mul(&self.generator, &sk);
        if !point_eq(&pk, &pk_computed) {
            return Err(Error::Unsatisfied(0));
        }
        let pk_d_computed = point_add(&point_mul(&ck[0], &sk_d[0]), &point_mul(&ck[1], &sk_d[1]));
        if !point_eq(&pk_d, &pk_d_computed) {
            return Err(Error::Unsatisfied(1));
        }
        let addr_computed = hash2(params, &pk.x, &pk.y);
        if !fp_eq(&addr, &addr_computed) {
            return Err(Error::Unsatisfied(2));
        }
        let addr_d_computed = hash2(params, &pk_d.x, &pk_d.y);
        if !fp_eq(&addr_d, &addr_d_computed) {
            return Err(Error::Unsatisfied(3));
        }
        if v.is_zero() {
            return Err(Error::Unsatisfied(4));
        }
        if !v.le_half_modulus() {
            return Err(Error::Unsatisfied(5));
        }
        if !v_cur.le_half_modulus() {
            return Err(Error::Unsatisfied(6));
        }
        if !v_cur_d.le_half_modulus() {
            return Err(Error::Unsatisfied(7));
        }
        let branch = if flag {
            fp_sub(&v_cur_d, &v)
        } else {
            fp_sub(&v_cur, &v)
        };
        if !branch.le_half_modulus() {
            return Err(Error::Unsatisfied(8));
        }
        let cm_cur_computed = hash4(params, &addr, &v_cur, &sn_cur, &o_cur);
        if !fp_eq(&cm_cur, &cm_cur_computed) {
            return Err(Error::Unsatisfied(9));
        }
        let leaf: Vec<Felt> = vec![cm_cur];
        proof {
            assert(seq_vals(leaf@) =~= seq![cm_cur@]);
        }
        if !tree_proof.verify_membership(leaf_pos as usize, params, params, &rt, &leaf) {
            return Err(Error::Unsatisfied(10));
        }
        let sn_cur_computed = hash2(params, &sk, &o_cur);
        if !fp_eq(&sn_cur, &sn_cur_computed) {
            return Err(Error::Unsatisfied(11));
        }
        let sn_new_computed = hash2(params, &sk, &o_new);
        if !fp_eq(&sn_new, &sn_new_computed) {
            return Err(Error::Unsatisfied(12));
        }
        let cm_new_v = if flag {
            fp_add(&v_cur, &v)
        } else {
            fp_sub(&v_cur, &v)
        };
        let cm_new_computed = hash4(params, &addr, &cm_new_v, &sn_new, &o_new);
        if !fp_eq(&cm_new, &cm_new_computed) {
            return Err(Error::Unsatisfied(13));
        }
        let cm_cur_d_computed = point_add(
            &point_mul(&ck[0], &v_cur_d),
            &point_mul(&ck[1], &o_cur_d),
        );
        if !point_eq(&cm_cur_d, &cm_cur_d_computed) {
            return Err(Error::Unsatisfied(14));
        }
        let v_d = if flag {
            fp_neg(&v)
        } else {
            v
        };
        let cm_v_d_computed = point_add(&point_mul(&ck[0], &v_d), &point_mul(&ck[1], &o_v_d));
        if !point_eq(&cm_v_d, &cm_v_d_computed) {
            return Err(Error::Unsatisfied(15));
        }
        let cm_new_d_computed = point_add(&cm_cur_d, &cm_v_d);
        if !point_eq(&cm_new_d, &cm_new_d_computed) {
            return Err(Error::Unsatisfied(16));
        }
        let wrap = elgamal::encrypt(
            &elgamal::Parameters { generator: self.generator },
            &apk,
            &k,
            &r,
        );
        if !(point_eq(&g_r, &wrap.0) && point_eq(&k_a, &wrap.1)) {
            return Err(Error::Unsatisfied(17));
        }
        if !fp_eq(&k_x.k, &k.x) {
            return Err(Error::Unsatisfied(18));
        }

        let flag_f = if flag {
            Felt::from_u64(1)
        } else {
            Felt::from_u64(0)
        };
        let plain: Vec<Felt> = vec![pk.x, pk.y, addr_d, v, flag_f, o_v_d];
        proof {
            assert(seq_vals(plain@) =~= self.plain());
            assert(self.constraint(0));
            assert(self.constraint(1));
            assert(self.constraint(2));
            assert(self.constraint(3));
            assert(self.constraint(4));
            assert(self.constraint(5));
            assert(self.constraint(6));
            assert(self.constraint(7));
            assert(self.constraint(8));
            assert(self.constraint(9));
            assert(self.constraint(10));
            assert(self.constraint(11));
            assert(self.constraint(12));
            assert(self.constraint(13));
            assert(self.constraint(14));
            assert(self.constraint(15));
            assert(self.constraint(16));
            assert(self.constraint(17));
            assert(self.constraint(18));
        }
        let mut i: usize = 0;
        while i < 6
            invariant
                self.assigned(),
                self.shaped(),
                forall|t: int| 0 <= t < 19 ==> self.constraint(t),
                i <= 6,
                ct_bar == self.instance.ct_bar.unwrap(),
                ct_bar@.len() == 6,
                plain@.len() == 6,
                seq_vals(plain@) == self.plain(),
                k_x == self.witness.k_x.unwrap(),
                forall|t: int| 0 <= t < i ==> self.constraint(#[trigger] (19 + t)),
            decreases 6 - i,
        {
            let nonce = Felt::from_u64(i as u64);
            let h = hash2(params, &k_x.k, &nonce);
            let expected = fp_add(&h, &plain[i]);
            proof {
                assert(seq_vals(plain@)[i as int] == plain@[i as int]@);
                assert(seq_vals(ct_bar@)[i as int] == ct_bar@[i as int]@);
                assert(seq![k_x.k@, nonce@] =~= seq![k_x.k@, i as nat]);
                assert(expected@ == cipher_slot(k_x.k@, i as nat, self.plain()[i as int]));
            }
            if !fp_eq(&ct_bar[i], &expected) {
                proof {
                    assert(!self.constraint(19 + i as int));
                    assert forall|t: int| 0 <= t < 19 + i implies self.constraint(t) by {
                        if t >= 19 {
                            let u = t - 19;
                            assert(self.constraint(19 + u));
                        }
                    }
                }
                return Err(Error::Unsatisfied(19 + i));
            }
            proof {
                assert(self.constraint(#[trigger] (19 + i as int)));
            }
            i = i + 1;
        }
        proof {
            assert forall|j: int| 0 <= j < Self::num_constraints() implies self.constraint(j) by {
                if j >= 19 {
                    let u = j - 19;
                    assert(self.constraint(19 + u));
                }
            }
        }
        Ok(())
    }

    /// Builds a satisfied Exchange relation for either direction of the
    /// flag: the holder of `sk` settles `v` units against a note of
    /// `v_cur` (standing alone at position zero of a tree of the given
    /// height) and a blinded directional balance of `v_cur_d`, under the
    /// commitment key `(ck0, ck1)` and directional secret `(sk_d0,
    /// sk_d1)`.  The output embeds exactly the caller's parameters,
    /// keys, values, flag and openings.
    pub fn build(
        hash_params: HashParams,
        generator: Point,
        apk: Point,
        ck0: Point,
        ck1: Point,
        sk: Felt,
        sk_d0: Felt,
        sk_d1: Felt,
        flag: bool,
        v: u64,
        v_cur: u64,
        v_cur_d: u64,
        o_cur: Felt,
        o_cur_d: Felt,
        o_new: Felt,
        o_v_d: Felt,
        r: Felt,
        k: Point,
        tree_height: u64,
    ) -> (c: ExchangeCircuit)
        requires
            v != 0,
            v <= v_cur,
            v <= v_cur_d,
            2 <= tree_height,
            tree_height - 2 <= usize::MAX,
        ensures
            c.satisfied(),
            c.hash_params == hash_params,
            c.generator == generator,
            c.instance.apk == Some(apk),
            c.instance.ck matches Some(key) && key@ == seq![ck0, ck1],
            c.witness.sk == Some(sk),
            c.witness.sk_d matches Some(d) && d@ == seq![sk_d0, sk_d1],
            c.witness.flag == Some(flag),
            c.witness.v matches Some(f) && f@ == v,
            c.witness.v_cur matches Some(f) && f@ == v_cur,
            c.witness.v_cur_d matches Some(f) && f@ == v_cur_d,
            c.witness.o_cur == Some(o_cur),
            c.witness.o_cur_d == Some(o_cur_d),
            c.witness.o_new == Some(o_new),
            c.witness.o_v_d == Some(o_v_d),
            c.witness.r == Some(r),
            c.witness.k == Some(k),
            c.witness.leaf_pos == Some(0u32),
            c.witness.tree_proof matches Some(p) && p.leaf_index == 0 && p.auth_path@.len() + 2
                == tree_height,
    {
        let eg = elgamal::Parameters { generator };
        let pk = elgamal::keygen(&eg, &sk);
        let pk_d = point_add(&point_mul(&ck0, &sk_d0), &point_mul(&ck1, &sk_d1));
        let addr = hash2(&hash_params, &pk.x, &pk.y);
        let addr_d = hash2(&hash_params, &pk_d.x, &pk_d.y);
        let v_f = Felt::from_u64(v);
        let v_cur_f = Felt::from_u64(v_cur);
        let v_cur_d_f = Felt::from_u64(v_cur_d);

        let sn_cur = hash2(&hash_params, &sk, &o_cur);
        let sn_new = hash2(&hash_params, &sk, &o_new);
        let cm_cur = hash4(&hash_params, &addr, &v_cur_f, &sn_cur, &o_cur);

        let cm_new_v = if flag {
            fp_add(&v_cur_f, &v_f)
        } else {
            fp_sub(&v_cur_f, &v_f)
        };
        proof {
            crate::field::lemma_add_mod_small(v_cur_f@, v_f@);
            crate::field::lemma_sub_mod_cases(v_cur_f@, v_f@);
            crate::field::lemma_sub_mod_cases(v_cur_d_f@, v_f@);
        }
        let cm_new = hash4(&hash_params, &addr, &cm_new_v, &sn_new, &o_new);

        let cm_cur_d = point_add(&point_mul(&ck0, &v_cur_d_f), &point_mul(&ck1, &o_cur_d));
        let v_d = if flag {
            fp_neg(&v_f)
        } else {
            v_f
        };
        let cm_v_d = point_add(&point_mul(&ck0, &v_d), &point_mul(&ck1, &o_v_d));
        let cm_new_d = point_add(&cm_cur_d, &cm_v_d);

        let tree_proof = get_mocking_merkle_tree(tree_height);
        let leaf: Vec<Felt> = vec![cm_cur];
        proof {
            assert(seq_vals(leaf@) =~= seq![cm_cur@]);
        }
        let rt = tree_proof.calculate_root(0, &hash_params, &hash_params, &leaf);
        let leaf_pos: u32 = 0;

        let wrap = elgamal::encrypt(&eg, &apk, &k, &r);
        let k_x = SymmetricKey { k: k.x };

        let flag_f = if flag {
            Felt::from_u64(1)
        } else {
            Felt::from_u64(0)
        };
        let plain: Vec<Felt> = vec![pk.x, pk.y, addr_d, v_f, flag_f, o_v_d];
        let mut ct_bar: Vec<Felt> = Vec::new();
        let mut i: usize = 0;
        while i < 6
            invariant
                i <= 6,
                plain@.len() == 6,
                ct_bar@.len() == i,
                forall|t: int| 0 <= t < i ==> seq_vals(ct_bar@)[t] == cipher_slot(
                    k_x.k@,
                    t as nat,
                    seq_vals(plain@)[t],
                ),
            decreases 6 - i,
        {
            let nonce = Felt::from_u64(i as u64);
            let h = hash2(&hash_params, &k_x.k, &nonce);
            let slot = fp_add(&h, &plain[i]);
            proof {
                assert(seq![k_x.k@, nonce@] =~= seq![k_x.k@, i as nat]);
                assert(seq_vals(plain@)[i as int] == plain@[i as int]@);
                assert(slot@ == cipher_slot(k_x.k@, i as nat, seq_vals(plain@)[i as int]));
            }
            let ghost prev = ct_bar@;
            ct_bar.push(slot);
            proof {
                assert(seq_vals(ct_bar@) =~= seq_vals(prev).push(slot@));
            }
            i = i + 1;
        }

        let ck: Vec<Point> = vec![ck0, ck1];
        let sk_d: Vec<Felt> = vec![sk_d0, sk_d1];
        let instance = ExchangeInstance {
            rt: Some(rt),
            ck: Some(ck),
            addr_d: Some(addr_d),
            sn_cur: Some(sn_cur),
            cm_new: Some(cm_new),
            cm_new_d: Some(cm_new_d),
            cm_v_d: Some(cm_v_d),
            ct_bar: Some(ct_bar),
            apk: Some(apk),
            g_r: Some(wrap.0),
            k_a: Some(wrap.1),
        };
        let witness = ExchangeWitness {
            sk: Some(sk),
            pk: Some(pk),
            sk_d: Some(sk_d),
            pk_d: Some(pk_d),
            addr: Some(addr),
            v: Some(v_f),
            v_cur: Some(v_cur_f),
            v_cur_d: Some(v_cur_d_f),
            o_cur: Some(o_cur),
            o_cur_d: Some(o_cur_d),
            o_new: Some(o_new),
            o_v_d: Some(o_v_d),
            sn_new: Some(sn_new),
            cm_cur: Some(cm_cur),
            cm_cur_d: Some(cm_cur_d),
            flag: Some(flag),
            leaf_pos: Some(leaf_pos),
            tree_proof: Some(tree_proof),
            k: Some(k),
            r: Some(r),
            k_x: Some(k_x),
        };
        let c = ExchangeCircuit { hash_params, generator, instance, witness };
        proof {
            assert(c.plain() =~= seq_vals(plain@));
            assert(half_modulus() >= 0xffff_ffff_ffff_ffff);
            assert(seq_vals(c.witness.sk_d.unwrap()@) =~= seq![sk_d0@, sk_d1@]);
            assert forall|j: int| 0 <= j < Self::num_constraints() implies c.constraint(j) by {
                if 19 <= j < 25 {
                    assert(seq_vals(c.instance.ct_bar.unwrap()@)[j - 19] == cipher_slot(
                        k_x.k@,
                        (j - 19) as nat,
                        seq_vals(plain@)[j - 19],
                    ));
                }
            }
        }
        c
    }
}

/// Law: exchange directionality, the binding direction.  In a satisfied
/// relation one boolean selects both encodings at once: the note-value
/// branch of the new commitment and the sign branch of the blinded
/// delta both follow the witness flag.
pub proof fn lemma_exchange_directional_consistency(c: ExchangeCircuit)
    requires
        c.assigned(),
        c.shaped(),
        c.satisfied(),
    ensures
        ({
            let flag = c.witness.flag.unwrap();
            let addr = c.witness.addr.unwrap()@;
            let v = c.witness.v.unwrap()@;
            let v_cur = c.witness.v_cur.unwrap()@;
            let sn_new = c.witness.sn_new.unwrap()@;
            let o_new = c.witness.o_new.unwrap()@;
            let o_v_d = c.witness.o_v_d.unwrap()@;
            let ck0 = c.instance.ck.unwrap()@[0]@;
            let ck1 = c.instance.ck.unwrap()@[1]@;
            let vd = if flag { sub_mod(0, v) } else { v };
            let a = point_mul_of(ck0.0, ck0.1, vd);
            let b = point_mul_of(ck1.0, ck1.1, o_v_d);
            &&& c.instance.cm_new.unwrap()@ == hash_of(
                seq![
                    addr,
                    if flag { add_mod(v_cur, v) } else { sub_mod(v_cur, v) },
                    sn_new,
                    o_new,
                ],
            )
            &&& c.instance.cm_v_d.unwrap()@ == point_add_of(a.0, a.1, b.0, b.1)
        }),
{
    assert(c.constraint(13));
    assert(c.constraint(15));
}

/// Law: exchange directionality, the separation direction.  In a
/// satisfied relation the two directions of the flag bind different
/// note values: the credited value `v_cur + v` and the debited value
/// `v_cur - v` differ, because `v` is constrained non-zero and bounded.
pub proof fn lemma_exchange_directions_differ(c: ExchangeCircuit)
    requires
        c.assigned(),
        c.shaped(),
        c.satisfied(),
    ensures
        add_mod(c.witness.v_cur.unwrap()@, c.witness.v.unwrap()@) != sub_mod(
            c.witness.v_cur.unwrap()@,
            c.witness.v.unwrap()@,
        ),
{
    let v = c.witness.v.unwrap()@;
    let v_cur = c.witness.v_cur.unwrap()@;
    let p = crate::field::modulus() as int;
    assert(c.constraint(4));
    assert(c.constraint(5));
    assert(half_modulus() * 2 < crate::field::modulus());
    let a = add_mod(v_cur, v);
    let s = sub_mod(v_cur, v);
    if a == s {
        vstd::arithmetic::div_mod::lemma_sub_mod_noop(
            (v_cur + v) as int,
            v_cur as int - v as int,
            p,
        );
        assert((a - s) % p == ((v_cur + v) - (v_cur - v)) % p);
        assert((a - s) % p == 0) by {
            vstd::arithmetic::div_mod::lemma_small_mod(0, crate::field::modulus());
        }
        assert((2 * (v as int)) % p == 0);
        vstd::arithmetic::div_mod::lemma_small_mod((2 * v) as nat, crate::field::modulus());
        assert(false);
    }
}

impl MockingCircuit for ExchangeCircuit {
    type F = Felt;

    type HashParam = HashParams;

    type Output = ExchangeCircuit;

    /// The mocking membership path must realize the height.
    open spec fn height_ok(tree_height: u64) -> bool {
        2 <= tree_height && tree_height - 2 <= usize::MAX
    }

    /// Draws fresh key material and randomness and settles five units
    /// outbound against balances of one hundred and two hundred.
    fn generate_circuit(tree_height: u64) -> (res: Result<ExchangeCircuit, Error>) {
        let hash_params = get_poseidon_params();
        let generator = random_point();
        let eg = elgamal::Parameters { generator };
        let apk = elgamal::keygen(&eg, &random_scalar());
        let ck0 = random_point();
        let ck1 = random_point();
        let sk = random_scalar();
        let sk_d0 = Felt::from_u64(3);
        let sk_d1 = Felt::from_u64(4);
        let o_cur = random_fp();
        let o_cur_d = random_fp();
        let o_new = random_fp();
        let o_v_d = random_fp();
        let r = random_scalar();
        let k = random_point();
        let c = ExchangeCircuit::build(
            hash_params,
            generator,
            apk,
            ck0,
            ck1,
            sk,
            sk_d0,
            sk_d1,
            false,
            5,
            100,
            200,
            o_cur,
            o_cur_d,
            o_new,
            o_v_d,
            r,
            k,
            tree_height,
        );
        proof {
            assert(seq_vals(c.witness.sk_d.unwrap()@) =~= seq![3nat, 4nat]);
        }
        Ok(c)
    }

    /// The mocking circuit satisfies the relation and settles five units
    /// outbound (flag off) against balances of one hundred and two
    /// hundred, at position zero, under the directional secrets three
    /// and four.
    open spec fn output_ok(out: &ExchangeCircuit) -> bool {
        &&& out.satisfied()
        &&& out.witness.flag == Some(false)
        &&& out.witness.sk_d matches Some(d) && seq_vals(d@) == seq![3nat, 4nat]
        &&& out.witness.v matches Some(f) && f@ == 5
        &&& out.witness.v_cur matches Some(f) && f@ == 100
        &&& out.witness.v_cur_d matches Some(f) && f@ == 200
        &&& out.witness.leaf_pos == Some(0u32)
    }
}

} // verus!
