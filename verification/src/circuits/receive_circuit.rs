//! The Receive relation: claim a transfer created by Send and merge it
//! into the recipient's balance.
//!
//! Constraints, in checking order:
//!   0: `cm_v = H(addr_snd, v, o_v, pk_rcv.x, pk_rcv.y, sn_cur)` (claimed
//!      transfer commitment)
//!   1: `sn_v = H(o_v, sk_rcv)` (transfer note's serial number)
//!   2: Merkle membership of the pair `(cm_v, cm_cur)` at `leaf_pos`
//!      under root `rt`
//!   3: `v + v_cur` stays within the 64-bit range (no overflow)
//!   4: `sn_cur = H(o_cur, sk_rcv)` (prior note's serial number)
//!   5: `sn_new = H(sn_cur, sk_rcv)` (chained successor serial number)
//!   6: `o_new = H(o_cur, sk_rcv)` (derived successor opening)
//!   7: `cm_new = H(addr_rcv, v + v_cur, o_new, pk_rcv.x, pk_rcv.y,
//!      sn_new)` (merged output commitment)
//!   8: recipient wrap: `(g_r, k_u) = (G^r, pk_rcv^r · k)`
//!   9: auditor wrap: `(g_r, k_a) = (G^r, apk^r · k)`
//!  10 + i, for slots i = 0..5: `ct[i] = H(k_x, i) + plain[i]` with
//!      plaintext `(addr_snd, v, o_v, sn_cur, pk_rcv.x, pk_rcv.y)`
//!
//! Constraints 4 and 6 derive the prior note's serial number and the
//! merged note's opening from the same pair `(o_cur, sk_rcv)`, so a
//! satisfied relation has `o_new` equal to the revealed `sn_cur`; that
//! identity is part of the relation as the operation defines it.

use vstd::prelude::*;

use crate::circuits::MockingCircuit;
use crate::curve::{point_eq, point_mul_of, random_point, te_generator, Point};
use crate::elgamal;
use crate::elgamal::wrap_body_of;
use crate::field::{add_mod, fp_add, fp_eq, random_fp, random_scalar, Felt};
use crate::hash::{get_poseidon_params, hash1, hash2, hash3, hash6, hash_of, seq_vals, HashParams};
use crate::merkle::{get_mocking_merkle_tree, Path};
use crate::symenc::{cipher_slot, SymmetricKey};
use crate::Error;

verus! {

broadcast use crate::curve::lemma_point_view;

/// The public instance of a Receive operation.
#[derive(Clone)]
pub struct ReceiveInstance {
    pub apk: Option<Point>,
    pub sn_v: Option<Felt>,
    pub sn_cur: Option<Felt>,
    pub cm_new: Option<Felt>,
    pub rt: Option<Felt>,
    pub g_r: Option<Point>,
    pub k_u: Option<Point>,
    pub k_a: Option<Point>,
}

/// The private witness of a Receive operation.
#[derive(Clone)]
pub struct ReceiveWitness {
    pub pk_rcv: Option<Point>,
    pub sk_rcv: Option<Felt>,
    pub addr_snd: Option<Felt>,
    pub addr_rcv: Option<Felt>,
    pub v: Option<Felt>,
    pub v_cur: Option<Felt>,
    pub opening_v: Option<Felt>,
    pub opening_cur: Option<Felt>,
    pub opening_new: Option<Felt>,
    pub sn_new: Option<Felt>,
    pub cm_v: Option<Felt>,
    pub cm_cur: Option<Felt>,
    pub leaf_pos: Option<u32>,
    pub path: Option<Path>,
    pub ct: Option<Vec<Felt>>,
    pub r: Option<Felt>,
    pub k: Option<Point>,
    pub k_point_x: Option<SymmetricKey>,
}

/// A populated Receive relation.
#[derive(Clone)]
pub struct ReceiveCircuit {
    pub hash_params: HashParams,
    pub generator: Point,
    pub instance: ReceiveInstance,
    pub witness: ReceiveWitness,
}

impl ReceiveCircuit {
    /// How many constraints the relation has.
    pub open spec fn num_constraints() -> int {
        16
    }

    /// The largest sum of values that the bounded-sum gate accepts.
    pub open spec fn sum_bound() -> nat {
        0xffff_ffff_ffff_fffenat
    }

    /// Every instance and witness field carries an assignment.
    pub open spec fn assigned(self) -> bool {
        &&& self.instance.apk is Some
        &&& self.instance.sn_v is Some
        &&& self.instance.sn_cur is Some
        &&& self.instance.cm_new is Some
        &&& self.instance.rt is Some
        &&& self.instance.g_r is Some
        &&& self.instance.k_u is Some
        &&& self.instance.k_a is Some
        &&& self.witness.pk_rcv is Some
        &&& self.witness.sk_rcv is Some
        &&& self.witness.addr_snd is Some
        &&& self.witness.addr_rcv is Some
        &&& self.witness.v is Some
        &&& self.witness.v_cur is Some
        &&& self.witness.opening_v is Some
        &&& self.witness.opening_cur is Some
        &&& self.witness.opening_new is Some
        &&& self.witness.sn_new is Some
        &&& self.witness.cm_v is Some
        &&& self.witness.cm_cur is Some
        &&& self.witness.leaf_pos is Some
        &&& self.witness.path is Some
        &&& self.witness.ct is Some
        &&& self.witness.r is Some
        &&& self.witness.k is Some
        &&& self.witness.k_point_x is Some
    }

    /// The re-encryption ciphertext has its fixed six slots.
    pub open spec fn shaped(self) -> bool {
        self.witness.ct.unwrap()@.len() == 6
    }

    /// The disclosed plaintext vector, in its fixed slot order.
    pub open spec fn plain(self) -> Seq<nat> {
        let pk_rcv = self.witness.pk_rcv.unwrap()@;
        seq![
            self.witness.addr_snd.unwrap()@,
            self.witness.v.unwrap()@,
            self.witness.opening_v.unwrap()@,
            self.instance.sn_cur.unwrap()@,
            pk_rcv.0,
            pk_rcv.1,
        ]
    }

    /// Constraint `j` of the relation.
    pub open spec fn constraint(self, j: int) -> bool
        recommends
            self.assigned(),
            self.shaped(),
    {
        let g = self.generator@;
        let pk_rcv = self.witness.pk_rcv.unwrap()@;
        let sk = self.witness.sk_rcv.unwrap()@;
        let addr_snd = self.witness.addr_snd.unwrap()@;
        let addr_rcv = self.witness.addr_rcv.unwrap()@;
        let v = self.witness.v.unwrap()@;
        let v_cur = self.witness.v_cur.unwrap()@;
        let o_v = self.witness.opening_v.unwrap()@;
        let o_cur = self.witness.opening_cur.unwrap()@;
        let o_new = self.witness.opening_new.unwrap()@;
        let sn_new = self.witness.sn_new.unwrap()@;
        let cm_v = self.witness.cm_v.unwrap()@;
        let cm_cur = self.witness.cm_cur.unwrap()@;
        let pos = self.witness.leaf_pos.unwrap() as nat;
        let proof_path = self.witness.path.unwrap();
        let r = self.witness.r.unwrap()@;
        let k = self.witness.k.unwrap()@;
        let kx = self.witness.k_point_x.unwrap().k@;
        let apk = self.instance.apk.unwrap()@;
        let sn_v = self.instance.sn_v.unwrap()@;
        let sn_cur = self.instance.sn_cur.unwrap()@;
        let cm_new = self.instance.cm_new.unwrap()@;
        let rt = self.instance.rt.unwrap()@;
        let ct = seq_vals(self.witness.ct.unwrap()@);
        if j == 0 {
            cm_v == hash_of(seq![addr_snd, v, o_v, pk_rcv.0, pk_rcv.1, sn_cur])
        } else if j == 1 {
            sn_v == hash_of(seq![o_v, sk])
        } else if j == 2 {
            proof_path.membership_holds(pos, seq![cm_v, cm_cur], rt)
        } else if j == 3 {
            add_mod(v, v_cur) <= Self::sum_bound()
        } else if j == 4 {
            sn_cur == hash_of(seq![o_cur, sk])
        } else if j == 5 {
            sn_new == hash_of(seq![sn_cur, sk])
        } else if j == 6 {
            o_new == hash_of(seq![o_cur, sk])
        } else if j == 7 {
            cm_new == hash_of(
                seq![addr_rcv, add_mod(v, v_cur), o_new, pk_rcv.0, pk_rcv.1, sn_new],
            )
        } else if j == 8 {
            self.instance.g_r.unwrap()@ == point_mul_of(g.0, g.1, r)
                && self.instance.k_u.unwrap()@ == wrap_body_of(pk_rcv, k, r)
        } else if j == 9 {
            self.instance.g_r.unwrap()@ == point_mul_of(g.0, g.1, r)
                && self.instance.k_a.unwrap()@ == wrap_body_of(apk, k, r)
        } else if 10 <= j < 16 {
            ct[j - 10] == cipher_slot(kx, (j - 10) as nat, self.plain()[j - 10])
        } else {
            true
        }
    }

    /// The whole relation: populated, well-shaped, every constraint met.
    pub open spec fn satisfied(self) -> bool {
        &&& self.assigned()
        &&& self.shaped()
        &&& forall|j: int| 0 <= j < Self::num_constraints() ==> self.constraint(j)
    }

    /// Decides the relation.  Reports a missing assignment, a malformed
    /// ciphertext shape, or the first failing constraint.
    pub fn check(&self) -> (res: Result<(), Error>)
        ensures
            match res {
                Ok(()) => self.satisfied(),
                Err(e) => match e {
                    Error::MissingAssignment => !self.assigned(),
                    Error::MalformedInput => self.assigned() && !self.shaped(),
                    Error::Unsatisfied(j) => self.assigned() && self.shaped()
                        && 0 <= j < Self::num_constraints() && !self.constraint(j as int)
                        && (forall|t: int| 0 <= t < j ==> self.constraint(t)),
                },
            },
    {
        let apk = match self.instance.apk {
            Some(x) => x,
            None => { return Err(Error::MissingAssignment) },
        };
        let sn_v = match self.instance.sn_v {
            Some(x) => x,
            None => { return Err(Error::MissingAssignment) },
        };
        let sn_cur = match self.instance.sn_cur {
            Some(x) => x,
            None => { return Err(Error::MissingAssignment) },
        };
        let cm_new = match self.instance.cm_new {
            Some(x) => x,
            None => { return Err(Error::MissingAssignment) },
        };
        let rt = match self.instance.rt {
            Some(x) => x,
            None => { return Err(Error::MissingAssignment) },
        };
        let g_r = match self.instance.g_r {
            Some(x) => x,
            None => { return Err(Error::MissingAssignment) },
        };
        let k_u = match self.instance.k_u {
            Some(x) => x,
            None => { return Err(Error::MissingAssignment) },
        };
        let k_a = match self.instance.k_a {
            Some(x) => x,
            None => { return Err(Error::MissingAssignment) },
        };
        let pk_rcv = match self.witness.pk_rcv {
            Some(x) => x,
            None => { return Err(Error::MissingAssignment) },
        };
        let sk_rcv = match self.witness.sk_rcv {
            Some(x) => x,
            None => { return Err(Error::MissingAssignment) },
        };
        let addr_snd = match self.witness.addr_snd {
            Some(x) => x,
            None => { return Err(Error::MissingAssignment) },
        };
        let addr_rcv = match self.witness.addr_rcv {
            Some(x) => x,
            None => { return Err(Error::MissingAssignment) },
        };
        let v = match self.witness.v {
            Some(x) => x,
            None => { return Err(Error::MissingAssignment) },
        };
        let v_cur = match self.witness.v_cur {
            Some(x) => x,
            None => { return Err(Error::MissingAssignment) },
        };
        let opening_v = match self.witness.opening_v {
            Some(x) => x,
            None => { return Err(Error::MissingAssignment) },
        };
        let opening_cur = match self.witness.opening_cur {
            Some(x) => x,
            None => { return Err(Error::MissingAssignment) },
        };
        let opening_new = match self.witness.opening_new {
            Some(x) => x,
            None => { return Err(Error::MissingAssignment) },
        };
        let sn_new = match self.witness.sn_new {
            Some(x) => x,
            None => { return Err(Error::MissingAssignment) },
        };
        let cm_v = match self.witness.cm_v {
            Some(x) => x,
            None => { return Err(Error::MissingAssignment) },
        };
        let cm_cur = match self.witness.cm_cur {
            Some(x) => x,
            None => { return Err(Error::MissingAssignment) },
        };
        let leaf_pos = match self.witness.leaf_pos {
            Some(x) => x,
            None => { return Err(Error::MissingAssignment) },
        };
        let path = match &self.witness.path {
            Some(x) => x,
            None => { return Err(Error::MissingAssignment) },
        };
        let ct = match &self.witness.ct {
            Some(x) => x,
            None => { return Err(Error::MissingAssignment) },
        };
        let r = match self.witness.r {
            Some(x) => x,
            None => { return Err(Error::MissingAssignment) },
        };
        let k = match self.witness.k {
            Some(x) => x,
            None => { return Err(Error::MissingAssignment) },
        };
        let k_point_x = match self.witness.k_point_x {
            Some(x) => x,
            None => { return Err(Error::MissingAssignment) },
        };
        if ct.len() != 6 {
            return Err(Error::MalformedInput);
        }

        let params = &self.hash_params;
        let cm_v_computed = hash6(
            params,
            &addr_snd,
            &v,
            &opening_v,
            &pk_rcv.x,
            &pk_rcv.y,
            &sn_cur,
        );
        if !fp_eq(&cm_v, &cm_v_computed) {
            return Err(Error::Unsatisfied(0));
        }
        let sn_v_computed = hash2(params, &opening_v, &sk_rcv);
        if !fp_eq(&sn_v, &sn_v_computed) {
            return Err(Error::Unsatisfied(1));
        }
        let leaf: Vec<Felt> = vec![cm_v, cm_cur];
        proof {
            assert(seq_vals(leaf@) =~= seq![cm_v@, cm_cur@]);
        }
        if !path.verify_membership(leaf_pos as usize, params, params, &rt, &leaf) {
            return Err(Error::Unsatisfied(2));
        }
        let sum = fp_add(&v, &v_cur);
        let bound = Felt::from_u64(0xffff_ffff_ffff_fffe);
        if bound.lt(&sum) {
            return Err(Error::Unsatisfied(3));
        }
        let sn_cur_computed = hash2(params, &opening_cur, &sk_rcv);
        if !fp_eq(&sn_cur, &sn_cur_computed) {
            return Err(Error::Unsatisfied(4));
        }
        let sn_new_computed = hash2(params, &sn_cur, &sk_rcv);
        if !fp_eq(&sn_new, &sn_new_computed) {
            return Err(Error::Unsatisfied(5));
        }
        let opening_new_computed = hash2(params, &opening_cur, &sk_rcv);
        if !fp_eq(&opening_new, &opening_new_computed) {
            return Err(Error::Unsatisfied(6));
        }
        let cm_new_computed = hash6(
            params,
            &addr_rcv,
            &sum,
            &opening_new,
            &pk_rcv.x,
            &pk_rcv.y,
            &sn_new,
        );
        if !fp_eq(&cm_new, &cm_new_computed) {
            return Err(Error::Unsatisfied(7));
        }
        let eg = elgamal::Parameters { generator: self.generator };
        let wrap_u = elgamal::encrypt(&eg, &pk_rcv, &k, &r);
        if !(point_eq(&g_r, &wrap_u.0) && point_eq(&k_u, &wrap_u.1)) {
            return Err(Error::Unsatisfied(8));
        }
        let wrap_a = elgamal::encrypt(&eg, &apk, &k, &r);
        if !(point_eq(&g_r, &wrap_a.0) && point_eq(&k_a, &wrap_a.1)) {
            return Err(Error::Unsatisfied(9));
        }

        let plain: Vec<Felt> = vec![addr_snd, v, opening_v, sn_cur, pk_rcv.x, pk_rcv.y];
        proof {
            assert(seq_vals(plain@) =~= self.plain());
            assert(self.constraint(0));
            assert(self.constraint(1));
            assert(self.constraint(2));
            assert(self.constraint(3));
            assert(self.constraint(4));
            assert(self.constraint(5));
            assert(self.constraint(6));
            assert(self.constraint(7));
            assert(self.constraint(8));
            assert(self.constraint(9));
        }
        let mut i: usize = 0;
        while i < 6
            invariant
                self.assigned(),
                self.shaped(),
                forall|t: int| 0 <= t < 10 ==> self.constraint(t),
                i <= 6,
                ct == self.witness.ct.unwrap(),
                ct@.len() == 6,
                plain@.len() == 6,
                seq_vals(plain@) == self.plain(),
                k_point_x == self.witness.k_point_x.unwrap(),
                forall|t: int| 0 <= t < i ==> self.constraint(#[trigger] (10 + t)),
            decreases 6 - i,
        {
            let nonce = Felt::from_u64(i as u64);
            let h = hash2(params, &k_point_x.k, &nonce);
            let expected = fp_add(&h, &plain[i]);
            proof {
                assert(seq_vals(plain@)[i as int] == plain@[i as int]@);
                assert(seq_vals(ct@)[i as int] == ct@[i as int]@);
                assert(seq![k_point_x.k@, nonce@] =~= seq![k_point_x.k@, i as nat]);
                assert(expected@ == cipher_slot(k_point_x.k@, i as nat, self.plain()[i as int]));
            }
            if !fp_eq(&ct[i], &expected) {
                proof {
                    assert(!self.constraint(10 + i as int));
                    assert forall|t: int| 0 <= t < 10 + i implies self.constraint(t) by {
                        if t >= 10 {
                            let u = t - 10;
                            assert(self.constraint(10 + u));
                        }
                    }
                }
                return Err(Error::Unsatisfied(10 + i));
            }
            proof {
                assert(self.constraint(#[trigger] (10 + i as int)));
            }
            i = i + 1;
        }
        proof {
            assert forall|j: int| 0 <= j < Self::num_constraints() implies self.constraint(j) by {
                if j >= 10 {
                    let u = j - 10;
                    assert(self.constraint(10 + u));
                }
            }
        }
        Ok(())
    }

    /// Builds a satisfied Receive relation: the holder of `sk_rcv` claims
    /// a transfer of `v` sent by the holder of `pk_snd` and merges it
    /// with a prior balance of `v_cur`, both notes proved at position
    /// zero of a tree of the given height.  `addr_salt` blinds the
    /// recipient address derivation.  The output embeds exactly the
    /// caller's parameters, keys, values and openings.
    pub fn build(
        hash_params: HashParams,
        generator: Point,
        apk: Point,
        pk_snd: Point,
        sk_rcv: Felt,
        v: u64,
        v_cur: u64,
        opening_v: Felt,
        opening_cur: Felt,
        addr_salt: Felt,
        r: Felt,
        k: Point,
        tree_height: u64,
    ) -> (c: ReceiveCircuit)
        requires
            v + v_cur <= 0xffff_ffff_ffff_fffe,
            2 <= tree_height,
            tree_height - 2 <= usize::MAX,
        ensures
            c.satisfied(),
            c.hash_params == hash_params,
            c.generator == generator,
            c.instance.apk == Some(apk),
            c.witness.sk_rcv == Some(sk_rcv),
            c.witness.v matches Some(f) && f@ == v,
            c.witness.v_cur matches Some(f) && f@ == v_cur,
            c.witness.opening_v == Some(opening_v),
            c.witness.opening_cur == Some(opening_cur),
            c.witness.r == Some(r),
            c.witness.k == Some(k),
            c.witness.leaf_pos == Some(0u32),
            c.witness.path matches Some(p) && p.leaf_index == 0 && p.auth_path@.len() + 2
                == tree_height,
            c.witness.pk_rcv matches Some(pk) && pk@ == point_mul_of(
                generator@.0,
                generator@.1,
                sk_rcv@,
            ),
            c.witness.addr_snd matches Some(a) && a@ == hash_of(
                seq![hash_of(seq![sk_rcv@]), pk_snd@.0, pk_snd@.1],
            ),
            c.witness.addr_rcv matches Some(a) && a@ == hash_of(
                seq![
                    hash_of(seq![addr_salt@]),
                    c.witness.pk_rcv.unwrap()@.0,
                    c.witness.pk_rcv.unwrap()@.1,
                ],
            ),
    {
        let eg = elgamal::Parameters { generator };
        let pk_rcv = elgamal::keygen(&eg, &sk_rcv);
        let v_f = Felt::from_u64(v);
        let v_cur_f = Felt::from_u64(v_cur);

        let opening_new = hash2(&hash_params, &opening_cur, &sk_rcv);
        let sn_v = hash2(&hash_params, &opening_v, &sk_rcv);
        let sn_cur = hash2(&hash_params, &opening_cur, &sk_rcv);
        let sn_new = hash2(&hash_params, &sn_cur, &sk_rcv);

        let k_b = hash1(&hash_params, &sk_rcv);
        let k_b_salted = hash1(&hash_params, &addr_salt);
        let addr_snd = hash3(&hash_params, &k_b, &pk_snd.x, &pk_snd.y);
        let addr_rcv = hash3(&hash_params, &k_b_salted, &pk_rcv.x, &pk_rcv.y);

        let cm_v = hash6(
            &hash_params,
            &addr_snd,
            &v_f,
            &opening_v,
            &pk_rcv.x,
            &pk_rcv.y,
            &sn_cur,
        );
        let sum = fp_add(&v_f, &v_cur_f);
        proof {
            crate::field::lemma_add_mod_small(v_f@, v_cur_f@);
        }
        let cm_new = hash6(
            &hash_params,
            &addr_rcv,
            &sum,
            &opening_new,
            &pk_rcv.x,
            &pk_rcv.y,
            &sn_new,
        );
        let cm_cur = hash6(
            &hash_params,
            &addr_rcv,
            &v_cur_f,
            &opening_cur,
            &pk_rcv.x,
            &pk_rcv.y,
            &sn_cur,
        );

        let wrap_u = elgamal::encrypt(&eg, &pk_rcv, &k, &r);
        let wrap_a = elgamal::encrypt(&eg, &apk, &k, &r);
        let k_point_x = SymmetricKey { k: k.x };

        let plain: Vec<Felt> = vec![addr_snd, v_f, opening_v, sn_cur, pk_rcv.x, pk_rcv.y];
        let mut ct: Vec<Felt> = Vec::new();
        let mut i: usize = 0;
        while i < 6
            invariant
                i <= 6,
                plain@.len() == 6,
                ct@.len() == i,
                forall|t: int| 0 <= t < i ==> seq_vals(ct@)[t] == cipher_slot(
                    k_point_x.k@,
                    t as nat,
                    seq_vals(plain@)[t],
                ),
            decreases 6 - i,
        {
            let nonce = Felt::from_u64(i as u64);
            let h = hash2(&hash_params, &k_point_x.k, &nonce);
            let slot = fp_add(&h, &plain[i]);
            proof {
                assert(seq![k_point_x.k@, nonce@] =~= seq![k_point_x.k@, i as nat]);
                assert(seq_vals(plain@)[i as int] == plain@[i as int]@);
                assert(slot@ == cipher_slot(k_point_x.k@, i as nat, seq_vals(plain@)[i as int]));
            }
            let ghost prev = ct@;
            ct.push(slot);
            proof {
                assert(seq_vals(ct@) =~= seq_vals(prev).push(slot@));
            }
            i = i + 1;
        }

        let path = get_mocking_merkle_tree(tree_height);
        let leaf: Vec<Felt> = vec![cm_v, cm_cur];
        proof {
            assert(seq_vals(leaf@) =~= seq![cm_v@, cm_cur@]);
        }
        let rt = path.calculate_root(0, &hash_params, &hash_params, &leaf);
        let leaf_pos: u32 = 0;

        let instance = ReceiveInstance {
            apk: Some(apk),
            sn_v: Some(sn_v),
            sn_cur: Some(sn_cur),
            cm_new: Some(cm_new),
            rt: Some(rt),
            g_r: Some(wrap_a.0),
            k_u: Some(wrap_u.1),
            k_a: Some(wrap_a.1),
        };
        let witness = ReceiveWitness {
            pk_rcv: Some(pk_rcv),
            sk_rcv: Some(sk_rcv),
            addr_snd: Some(addr_snd),
            addr_rcv: Some(addr_rcv),
            v: Some(v_f),
            v_cur: Some(v_cur_f),
            opening_v: Some(opening_v),
            opening_cur: Some(opening_cur),
            opening_new: Some(opening_new),
            sn_new: Some(sn_new),
            cm_v: Some(cm_v),
            cm_cur: Some(cm_cur),
            leaf_pos: Some(leaf_pos),
            path: Some(path),
            ct: Some(ct),
            r: Some(r),
            k: Some(k),
            k_point_x: Some(k_point_x),
        };
        let c = ReceiveCircuit { hash_params, generator, instance, witness };
        proof {
            assert(c.plain() =~= seq_vals(plain@));
            assert forall|j: int| 0 <= j < Self::num_constraints() implies c.constraint(j) by {
                if 10 <= j < 16 {
                    assert(seq_vals(c.witness.ct.unwrap()@)[j - 10] == cipher_slot(
                        k_point_x.k@,
                        (j - 10) as nat,
                        seq_vals(plain@)[j - 10],
                    ));
                }
            }
        }
        c
    }
}

impl MockingCircuit for ReceiveCircuit {
    type F = Felt;

    type HashParam = HashParams;

    type Output = ReceiveCircuit;

    /// The mocking circuit satisfies the relation and merges a one-unit
    /// transfer into a one-unit prior balance at position zero.
    open spec fn output_ok(out: &ReceiveCircuit) -> bool {
        &&& out.satisfied()
        &&& out.witness.v matches Some(f) && f@ == 1
        &&& out.witness.v_cur matches Some(f) && f@ == 1
        &&& out.witness.leaf_pos == Some(0u32)
    }

    /// The mocking membership path must realize the height.
    open spec fn height_ok(tree_height: u64) -> bool {
        2 <= tree_height && tree_height - 2 <= usize::MAX
    }

    /// Draws fresh key material and randomness and claims a one-unit
    /// transfer against a one-unit prior balance.
    fn generate_circuit(tree_height: u64) -> (res: Result<ReceiveCircuit, Error>) {
        let hash_params = get_poseidon_params();
        let generator = te_generator();
        let eg = elgamal::Parameters { generator };
        let apk = elgamal::keygen(&eg, &random_scalar());
        let pk_snd = elgamal::keygen(&eg, &random_scalar());
        let sk_rcv = random_scalar();
        let opening_v = random_fp();
        let opening_cur = random_fp();
        let addr_salt = random_fp();
        let r = random_scalar();
        let k = random_point();
        Ok(
            ReceiveCircuit::build(
                hash_params,
                generator,
                apk,
                pk_snd,
                sk_rcv,
                1,
                1,
                opening_v,
                opening_cur,
                addr_salt,
                r,
                k,
                tree_height,
            ),
        )
    }
}

} // verus!
