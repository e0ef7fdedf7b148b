//! The Send relation: spend a note and split it into change plus an
//! addressed transfer, under full auditor disclosure.
//!
//! Constraints, in checking order:
//!   0: `pk_snd = G^sk_snd` (ownership)
//!   1: `addr_snd = H(pk_snd.x, pk_snd.y)` (address binding)
//!   2: `sn_cur = H(sk_snd, o_cur)` (spent note's serial number)
//!   3: `sn_new = H(sk_snd, o_new)` (change note's serial number)
//!   4: Merkle membership of `cm_cur` at `leaf_pos` under root `rt`
//!   5: `cm_cur = H(addr_snd, v_cur, sn_cur, o_cur)` (spent commitment)
//!   6: `cm_new = H(addr_snd, v_cur - v, sn_new, o_new)` (conservation)
//!   7: `v_cur - v` lies in the bounded range (no wraparound)
//!   8: `v` lies in the bounded range
//!   9: `cm_v = H(addr_snd, v, pk_rcv.x, pk_rcv.y, sn_cur, o_v)` (transfer)
//!  10: `auth = H(sk_snd, tag)` (authorization tag binding)
//!  11: key wrap: `(g_r, k_a) = (G^r, apk^r · k)`
//!  12: the symmetric key is the x-coordinate of the wrapped point
//!  13 + i, for slots i = 0..5: `ct_bar[i] = H(k_x, i) + plain[i]` with
//!      plaintext `(addr_snd, v, o_v, sn_cur, pk_rcv.x, pk_rcv.y)`

use vstd::prelude::*;

use crate::circuits::MockingCircuit;
use crate::curve::{point_eq, point_mul, point_mul_of, random_point, Point};
use crate::elgamal;
use crate::elgamal::wrap_body_of;
use crate::field::{
    fp_add, fp_eq, fp_sub, half_modulus, modulus, random_fp, random_scalar, sub_mod, Felt,
};
use crate::hash::{
    get_poseidon_params, hash2, hash4, hash6, hash_of, poseidon_hash, seq_vals, HashParams,
};
use crate::merkle::{get_mocking_merkle_tree, Path};
use crate::symenc::{cipher_slot, SymmetricKey};
use crate::Error;

verus! {

broadcast use crate::curve::lemma_point_view;

/// The public instance of a Send operation.
#[derive(Clone)]
pub struct SendInstance {
    pub sn_cur: Option<Felt>,
    pub cm_new: Option<Felt>,
    pub cm_v: Option<Felt>,
    pub rt: Option<Felt>,
    pub tag: Option<Felt>,
    pub auth: Option<Felt>,
    pub apk: Option<Point>,
    pub ct_bar: Option<Vec<Felt>>,
    pub g_r: Option<Point>,
    pub k_a: Option<Point>,
}

/// The private witness of a Send operation.
#[derive(Clone)]
pub struct SendWitness {
    pub sk_snd: Option<Felt>,
    pub pk_snd: Option<Point>,
    pub addr_snd: Option<Felt>,
    pub pk_rcv: Option<Point>,
    pub v_cur: Option<Felt>,
    pub v: Option<Felt>,
    pub o_cur: Option<Felt>,
    pub o_v: Option<Felt>,
    pub o_new: Option<Felt>,
    pub sn_new: Option<Felt>,
    pub cm_cur: Option<Felt>,
    pub leaf_pos: Option<u32>,
    pub tree_proof: Option<Path>,
    pub k: Option<Point>,
    pub r: Option<Felt>,
    pub k_point_x: Option<SymmetricKey>,
}

/// A populated Send relation.
#[derive(Clone)]
pub struct SendCircuit {
    pub hash_params: HashParams,
    pub generator: Point,
    pub instance: SendInstance,
    pub witness: SendWitness,
}

impl SendCircuit {
    /// How many constraints the relation has.
    pub open spec fn num_constraints() -> int {
        19
    }

    /// Every instance and witness field carries an assignment.
    pub open spec fn assigned(self) -> bool {
        &&& self.instance.sn_cur is Some
        &&& self.instance.cm_new is Some
        &&& self.instance.cm_v is Some
        &&& self.instance.rt is Some
        &&& self.instance.tag is Some
        &&& self.instance.auth is Some
        &&& self.instance.apk is Some
        &&& self.instance.ct_bar is Some
        &&& self.instance.g_r is Some
        &&& self.instance.k_a is Some
        &&& self.witness.sk_snd is Some
        &&& self.witness.pk_snd is Some
        &&& self.witness.addr_snd is Some
        &&& self.witness.pk_rcv is Some
        &&& self.witness.v_cur is Some
        &&& self.witness.v is Some
        &&& self.witness.o_cur is Some
        &&& self.witness.o_v is Some
        &&& self.witness.o_new is Some
        &&& self.witness.sn_new is Some
        &&& self.witness.cm_cur is Some
        &&& self.witness.leaf_pos is Some
        &&& self.witness.tree_proof is Some
        &&& self.witness.k is Some
        &&& self.witness.r is Some
        &&& self.witness.k_point_x is Some
    }

    /// The auditor ciphertext has its fixed six slots.
    pub open spec fn shaped(self) -> bool {
        self.instance.ct_bar.unwrap()@.len() == 6
    }

    /// The auditor plaintext vector, in its fixed slot order.
    pub open spec fn plain(self) -> Seq<nat> {
        let pk_rcv = self.witness.pk_rcv.unwrap()@;
        seq![
            self.witness.addr_snd.unwrap()@,
            self.witness.v.unwrap()@,
            self.witness.o_v.unwrap()@,
            self.instance.sn_cur.unwrap()@,
            pk_rcv.0,
            pk_rcv.1,
        ]
    }

    /// Constraint `j` of the relation.
    pub open spec fn constraint(self, j: int) -> bool
        recommends
            self.assigned(),
            self.shaped(),
    {
        let g = self.generator@;
        let sk = self.witness.sk_snd.unwrap()@;
        let pk = self.witness.pk_snd.unwrap()@;
        let addr = self.witness.addr_snd.unwrap()@;
        let pk_rcv = self.witness.pk_rcv.unwrap()@;
        let v_cur = self.witness.v_cur.unwrap()@;
        let v = self.witness.v.unwrap()@;
        let o_cur = self.witness.o_cur.unwrap()@;
        let o_v = self.witness.o_v.unwrap()@;
        let o_new = self.witness.o_new.unwrap()@;
        let sn_new = self.witness.sn_new.unwrap()@;
        let cm_cur = self.witness.cm_cur.unwrap()@;
        let pos = self.witness.leaf_pos.unwrap() as nat;
        let proof_path = self.witness.tree_proof.unwrap();
        let k = self.witness.k.unwrap()@;
        let r = self.witness.r.unwrap()@;
        let kx = self.witness.k_point_x.unwrap().k@;
        let sn_cur = self.instance.sn_cur.unwrap()@;
        let cm_new = self.instance.cm_new.unwrap()@;
        let cm_v = self.instance.cm_v.unwrap()@;
        let rt = self.instance.rt.unwrap()@;
        let tag = self.instance.tag.unwrap()@;
        let auth = self.instance.auth.unwrap()@;
        let apk = self.instance.apk.unwrap()@;
        let ct = seq_vals(self.instance.ct_bar.unwrap()@);
        if j == 0 {
            pk == point_mul_of(g.0, g.1, sk)
        } else if j == 1 {
            addr == hash_of(seq![pk.0, pk.1])
        } else if j == 2 {
            sn_cur == hash_of(seq![sk, o_cur])
        } else if j == 3 {
            sn_new == hash_of(seq![sk, o_new])
        } else if j == 4 {
            proof_path.membership_holds(pos, seq![cm_cur], rt)
        } else if j == 5 {
            cm_cur == hash_of(seq![addr, v_cur, sn_cur, o_cur])
        } else if j == 6 {
            cm_new == hash_of(seq![addr, sub_mod(v_cur, v), sn_new, o_new])
        } else if j == 7 {
            sub_mod(v_cur, v) <= half_modulus()
        } else if j == 8 {
            v <= half_modulus()
        } else if j == 9 {
            cm_v == hash_of(seq![addr, v, pk_rcv.0, pk_rcv.1, sn_cur, o_v])
        } else if j == 10 {
            auth == hash_of(seq![sk, tag])
        } else if j == 11 {
            self.instance.g_r.unwrap()@ == point_mul_of(g.0, g.1, r)
                && self.instance.k_a.unwrap()@ == wrap_body_of(apk, k, r)
        } else if j == 12 {
            kx == k.0
        } else if 13 <= j < 19 {
            ct[j - 13] == cipher_slot(kx, (j - 13) as nat, self.plain()[j - 13])
        } else {
            true
        }
    }

    /// The whole relation: populated, well-shaped, every constraint met.
    pub open spec fn satisfied(self) -> bool {
        &&& self.assigned()
        &&& self.shaped()
        &&& forall|j: int| 0 <= j < Self::num_constraints() ==> self.constraint(j)
    }

    /// Decides the relation.  Reports a missing assignment, a malformed
    /// ciphertext shape, or the first failing constraint.
    pub fn check(&self) -> (res: Result<(), Error>)
        ensures
            match res {
                Ok(()) => self.satisfied(),
                Err(e) => match e {
                    Error::MissingAssignment => !self.assigned(),
                    Error::MalformedInput => self.assigned() && !self.shaped(),
                    Error::Unsatisfied(j) => self.assigned() && self.shaped()
                        && 0 <= j < Self::num_constraints() && !self.constraint(j as int)
                        && (forall|t: int| 0 <= t < j ==> self.constraint(t)),
                },
            },
    {
        let sn_cur = match self.instance.sn_cur {
            Some(x) => x,
            None => { return Err(Error::MissingAssignment) },
        };
        let cm_new = match self.instance.cm_new {
            Some(x) => x,
            None => { return Err(Error::MissingAssignment) },
        };
        let cm_v = match self.instance.cm_v {
            Some(x) => x,
            None => { return Err(Error::MissingAssignment) },
        };
        let rt = match self.instance.rt {
            Some(x) => x,
            None => { return Err(Error::MissingAssignment) },
        };
        let tag = match self.instance.tag {
            Some(x) => x,
            None => { return Err(Error::MissingAssignment) },
        };
        let auth = match self.instance.auth {
            Some(x) => x,
            None => { return Err(Error::MissingAssignment) },
        };
        let apk = match self.instance.apk {
            Some(x) => x,
            None => { return Err(Error::MissingAssignment) },
        };
        let ct_bar = match &self.instance.ct_bar {
            Some(x) => x,
            None => { return Err(Error::MissingAssignment) },
        };
        let g_r = match self.instance.g_r {
            Some(x) => x,
            None => { return Err(Error::MissingAssignment) },
        };
        let k_a = match self.instance.k_a {
            Some(x) => x,
            None => { return Err(Error::MissingAssignment) },
        };
        let sk_snd = match self.witness.sk_snd {
            Some(x) => x,
            None => { return Err(Error::MissingAssignment) },
        };
        let pk_snd = match self.witness.pk_snd {
            Some(x) => x,
            None => { return Err(Error::MissingAssignment) },
        };
        let addr_snd = match self.witness.addr_snd {
            Some(x) => x,
            None => { return Err(Error::MissingAssignment) },
        };
        let pk_rcv = match self.witness.pk_rcv {
            Some(x) => x,
            None => { return Err(Error::MissingAssignment) },
        };
        let v_cur = match self.witness.v_cur {
            Some(x) => x,
            None => { return Err(Error::MissingAssignment) },
        };
        let v = match self.witness.v {
            Some(x) => x,
            None => { return Err(Error::MissingAssignment) },
        };
        let o_cur = match self.witness.o_cur {
            Some(x) => x,
            None => { return Err(Error::MissingAssignment) },
        };
        let o_v = match self.witness.o_v {
            Some(x) => x,
            None => { return Err(Error::MissingAssignment) },
        };
        let o_new = match self.witness.o_new {
            Some(x) => x,
            None => { return Err(Error::MissingAssignment) },
        };
        let sn_new = match self.witness.sn_new {
            Some(x) => x,
            None => { return Err(Error::MissingAssignment) },
        };
        let cm_cur = match self.witness.cm_cur {
            Some(x) => x,
            None => { return Err(Error::MissingAssignment) },
        };
        let leaf_pos = match self.witness.leaf_pos {
            Some(x) => x,
            None => { return Err(Error::MissingAssignment) },
        };
        let tree_proof = match &self.witness.tree_proof {
            Some(x) => x,
            None => { return Err(Error::MissingAssignment) },
        };
        let k = match self.witness.k {
            Some(x) => x,
            None => { return Err(Error::MissingAssignment) },
        };
        let r = match self.witness.r {
            Some(x) => x,
            None => { return Err(Error::MissingAssignment) },
        };
        let k_point_x = match self.witness.k_point_x {
            Some(x) => x,
            None => { return Err(Error::MissingAssignment) },
        };
        if ct_bar.len() != 6 {
            return Err(Error::MalformedInput);
        }

        let params = &self.hash_params;
        let pk_computed = point_mul(&self.generator, &sk_snd);
        if !point_eq(&pk_snd, &pk_computed) {
            return Err(Error::Unsatisfied(0));
        }
        let addr_computed = hash2(params, &pk_snd.x, &pk_snd.y);
        if !fp_eq(&addr_snd, &addr_computed) {
            return Err(Error::Unsatisfied(1));
        }
        let sn_cur_computed = hash2(params, &sk_snd, &o_cur);
        if !fp_eq(&sn_cur, &sn_cur_computed) {
            return Err(Error::Unsatisfied(2));
        }
        let sn_new_computed = hash2(params, &sk_snd, &o_new);
        if !fp_eq(&sn_new, &sn_new_computed) {
            return Err(Error::Unsatisfied(3));
        }
        let leaf: Vec<Felt> = vec![cm_cur];
        proof {
            assert(seq_vals(leaf@) =~= seq![cm_cur@]);
        }
        if !tree_proof.verify_membership(leaf_pos as usize, params, params, &rt, &leaf) {
            return Err(Error::Unsatisfied(4));
        }
        let cm_cur_computed = hash4(params, &addr_snd, &v_cur, &sn_cur, &o_cur);
        if !fp_eq(&cm_cur, &cm_cur_computed) {
            return Err(Error::Unsatisfied(5));
        }
        let change = fp_sub(&v_cur, &v);
        let cm_new_computed = hash4(params, &addr_snd, &change, &sn_new, &o_new);
        if !fp_eq(&cm_new, &cm_new_computed) {
            return Err(Error::Unsatisfied(6));
        }
        if !change.le_half_modulus() {
            return Err(Error::Unsatisfied(7));
        }
        if !v.le_half_modulus() {
            return Err(Error::Unsatisfied(8));
        }
        let cm_v_computed = hash6(params, &addr_snd, &v, &pk_rcv.x, &pk_rcv.y, &sn_cur, &o_v);
        if !fp_eq(&cm_v, &cm_v_computed) {
            return Err(Error::Unsatisfied(9));
        }
        let auth_computed = hash2(params, &sk_snd, &tag);
        if !fp_eq(&auth, &auth_computed) {
            return Err(Error::Unsatisfied(10));
        }
        let wrap = elgamal::encrypt(
            &elgamal::Parameters { generator: self.generator },
            &apk,
            &k,
            &r,
        );
        if !(point_eq(&g_r, &wrap.0) && point_eq(&k_a, &wrap.1)) {
            return Err(Error::Unsatisfied(11));
        }
        if !fp_eq(&k_point_x.k, &k.x) {
            return Err(Error::Unsatisfied(12));
        }

        let plain: Vec<Felt> = vec![addr_snd, v, o_v, sn_cur, pk_rcv.x, pk_rcv.y];
        proof {
            assert(seq_vals(plain@) =~= self.plain());
            assert(self.constraint(0));
            assert(self.constraint(1));
            assert(self.constraint(2));
            assert(self.constraint(3));
            assert(self.constraint(4));
            assert(self.constraint(5));
            assert(self.constraint(6));
            assert(self.constraint(7));
            assert(self.constraint(8));
            assert(self.constraint(9));
            assert(self.constraint(10));
            assert(self.constraint(11));
            assert(self.constraint(12));
        }
        let mut i: usize = 0;
        while i < 6
            invariant
                self.assigned(),
                self.shaped(),
                forall|t: int| 0 <= t < 13 ==> self.constraint(t),
                i <= 6,
                ct_bar == self.instance.ct_bar.unwrap(),
                ct_bar@.len() == 6,
                plain@.len() == 6,
                seq_vals(plain@) == self.plain(),
                k_point_x == self.witness.k_point_x.unwrap(),
                forall|t: int| 0 <= t < i ==> self.constraint(#[trigger] (13 + t)),
            decreases 6 - i,
        {
            let nonce = Felt::from_u64(i as u64);
            let h = hash2(params, &k_point_x.k, &nonce);
            let expected = fp_add(&h, &plain[i]);
            proof {
                assert(seq_vals(plain@)[i as int] == plain@[i as int]@);
                assert(seq_vals(ct_bar@)[i as int] == ct_bar@[i as int]@);
                assert(seq![k_point_x.k@, nonce@] =~= seq![k_point_x.k@, i as nat]);
                assert(expected@ == cipher_slot(k_point_x.k@, i as nat, self.plain()[i as int]));
            }
            if !fp_eq(&ct_bar[i], &expected) {
                proof {
                    assert(!self.constraint(13 + i as int));
                    assert forall|t: int| 0 <= t < 13 + i implies self.constraint(t) by {
                        if t >= 13 {
                            let u = t - 13;
                            assert(self.constraint(13 + u));
                        }
                    }
                }
                return Err(Error::Unsatisfied(13 + i));
            }
            proof {
                assert(self.constraint(#[trigger] (13 + i as int)));
            }
            i = i + 1;
        }
        proof {
            assert forall|j: int| 0 <= j < Self::num_constraints() implies self.constraint(j) by {
                if j >= 13 {
                    let u = j - 13;
                    assert(self.constraint(13 + u));
                }
            }
        }
        Ok(())
    }

    /// Builds a satisfied Send relation: the spender `sk_snd` spends a
    /// note of value `v_cur` standing alone at position zero of a tree
    /// of the given height, transferring `v` to `pk_rcv` and keeping
    /// the change.  The output embeds exactly the caller's parameters,
    /// keys, values and openings, and its authorization tag is the hash
    /// of the four-slot recipient ciphertext over the first four
    /// disclosed fields.
    pub fn build(
        hash_params: HashParams,
        generator: Point,
        apk: Point,
        pk_rcv: Point,
        sk_snd: Felt,
        v_cur: u64,
        v: u64,
        o_cur: Felt,
        o_v: Felt,
        o_new: Felt,
        r: Felt,
        k: Point,
        tree_height: u64,
    ) -> (c: SendCircuit)
        requires
            v <= v_cur,
            2 <= tree_height,
            tree_height - 2 <= usize::MAX,
        ensures
            c.satisfied(),
            c.hash_params == hash_params,
            c.generator == generator,
            c.instance.apk == Some(apk),
            c.witness.pk_rcv == Some(pk_rcv),
            c.witness.sk_snd == Some(sk_snd),
            c.witness.v_cur matches Some(f) && f@ == v_cur,
            c.witness.v matches Some(f) && f@ == v,
            c.witness.o_cur == Some(o_cur),
            c.witness.o_v == Some(o_v),
            c.witness.o_new == Some(o_new),
            c.witness.r == Some(r),
            c.witness.k == Some(k),
            c.witness.leaf_pos == Some(0u32),
            c.witness.tree_proof matches Some(p) && p.leaf_index == 0 && p.auth_path@.len() + 2
                == tree_height,
            c.instance.tag matches Some(tag) && tag@ == hash_of(
                seq![
                    cipher_slot(c.witness.k_point_x.unwrap().k@, 0, c.plain()[0]),
                    cipher_slot(c.witness.k_point_x.unwrap().k@, 1, c.plain()[1]),
                    cipher_slot(c.witness.k_point_x.unwrap().k@, 2, c.plain()[2]),
                    cipher_slot(c.witness.k_point_x.unwrap().k@, 3, c.plain()[3]),
                ],
            ),
    {
        let params = elgamal::Parameters { generator };
        let pk_snd = elgamal::keygen(&params, &sk_snd);
        let addr_snd = hash2(&hash_params, &pk_snd.x, &pk_snd.y);
        let v_cur_f = Felt::from_u64(v_cur);
        let v_f = Felt::from_u64(v);
        let sn_cur = hash2(&hash_params, &sk_snd, &o_cur);
        let sn_new = hash2(&hash_params, &sk_snd, &o_new);
        let cm_cur = hash4(&hash_params, &addr_snd, &v_cur_f, &sn_cur, &o_cur);
        let change = fp_sub(&v_cur_f, &v_f);
        proof {
            crate::field::lemma_sub_mod_cases(v_cur_f@, v_f@);
        }
        let cm_new = hash4(&hash_params, &addr_snd, &change, &sn_new, &o_new);
        let cm_v = hash6(&hash_params, &addr_snd, &v_f, &pk_rcv.x, &pk_rcv.y, &sn_cur, &o_v);

        let tree_proof = get_mocking_merkle_tree(tree_height);
        let leaf: Vec<Felt> = vec![cm_cur];
        proof {
            assert(seq_vals(leaf@) =~= seq![cm_cur@]);
        }
        let rt = tree_proof.calculate_root(0, &hash_params, &hash_params, &leaf);
        let leaf_pos: u32 = 0;

        let wrap = elgamal::encrypt(&params, &apk, &k, &r);
        let k_point_x = SymmetricKey { k: k.x };

        let plain: Vec<Felt> = vec![addr_snd, v_f, o_v, sn_cur, pk_rcv.x, pk_rcv.y];
        let mut ct_bar: Vec<Felt> = Vec::new();
        let mut i: usize = 0;
        while i < 6
            invariant
                i <= 6,
                plain@.len() == 6,
                ct_bar@.len() == i,
                forall|t: int| 0 <= t < i ==> seq_vals(ct_bar@)[t] == cipher_slot(
                    k_point_x.k@,
                    t as nat,
                    seq_vals(plain@)[t],
                ),
            decreases 6 - i,
        {
            let nonce = Felt::from_u64(i as u64);
            let h = hash2(&hash_params, &k_point_x.k, &nonce);
            let slot = fp_add(&h, &plain[i]);
            proof {
                assert(seq![k_point_x.k@, nonce@] =~= seq![k_point_x.k@, i as nat]);
                assert(seq_vals(plain@)[i as int] == plain@[i as int]@);
                assert(slot@ == cipher_slot(k_point_x.k@, i as nat, seq_vals(plain@)[i as int]));
            }
            let ghost prev = ct_bar@;
            ct_bar.push(slot);
            proof {
                assert(seq_vals(ct_bar@) =~= seq_vals(prev).push(slot@));
            }
            i = i + 1;
        }

        // the off-circuit ciphertext digest that the authorization tag binds
        let mut ct: Vec<Felt> = Vec::new();
        let mut t: usize = 0;
        while t < 4
            invariant
                t <= 4,
                plain@.len() == 6,
                ct@.len() == t,
                forall|u: int| 0 <= u < t ==> seq_vals(ct@)[u] == cipher_slot(
                    k_point_x.k@,
                    u as nat,
                    seq_vals(plain@)[u],
                ),
            decreases 4 - t,
        {
            let nonce = Felt::from_u64(t as u64);
            let h = hash2(&hash_params, &k_point_x.k, &nonce);
            let slot = fp_add(&h, &plain[t]);
            proof {
                assert(seq![k_point_x.k@, nonce@] =~= seq![k_point_x.k@, t as nat]);
                assert(seq_vals(plain@)[t as int] == plain@[t as int]@);
                assert(slot@ == cipher_slot(k_point_x.k@, t as nat, seq_vals(plain@)[t as int]));
            }
            let ghost prev = ct@;
            ct.push(slot);
            proof {
                assert(seq_vals(ct@) =~= seq_vals(prev).push(slot@));
            }
            t = t + 1;
        }
        let tag = poseidon_hash(&hash_params, &ct);
        let auth = hash2(&hash_params, &sk_snd, &tag);
        proof {
            assert(seq_vals(ct@) =~= seq![
                cipher_slot(k_point_x.k@, 0, seq_vals(plain@)[0]),
                cipher_slot(k_point_x.k@, 1, seq_vals(plain@)[1]),
                cipher_slot(k_point_x.k@, 2, seq_vals(plain@)[2]),
                cipher_slot(k_point_x.k@, 3, seq_vals(plain@)[3]),
            ]);
        }

        let instance = SendInstance {
            sn_cur: Some(sn_cur),
            cm_new: Some(cm_new),
            cm_v: Some(cm_v),
            rt: Some(rt),
            tag: Some(tag),
            auth: Some(auth),
            apk: Some(apk),
            ct_bar: Some(ct_bar),
            g_r: Some(wrap.0),
            k_a: Some(wrap.1),
        };
        let witness = SendWitness {
            sk_snd: Some(sk_snd),
            pk_snd: Some(pk_snd),
            addr_snd: Some(addr_snd),
            pk_rcv: Some(pk_rcv),
            v_cur: Some(v_cur_f),
            v: Some(v_f),
            o_cur: Some(o_cur),
            o_v: Some(o_v),
            o_new: Some(o_new),
            sn_new: Some(sn_new),
            cm_cur: Some(cm_cur),
            leaf_pos: Some(leaf_pos),
            tree_proof: Some(tree_proof),
            k: Some(k),
            r: Some(r),
            k_point_x: Some(k_point_x),
        };
        let c = SendCircuit { hash_params, generator, instance, witness };
        proof {
            assert(c.plain() =~= seq_vals(plain@));
            assert(half_modulus() >= 0xffff_ffff_ffff_ffff);
            assert forall|j: int| 0 <= j < Self::num_constraints() implies c.constraint(j) by {
                if 13 <= j < 19 {
                    assert(seq_vals(c.instance.ct_bar.unwrap()@)[j - 13] == cipher_slot(
                        k_point_x.k@,
                        (j - 13) as nat,
                        seq_vals(plain@)[j - 13],
                    ));
                }
            }
        }
        c
    }
}

impl MockingCircuit for SendCircuit {
    type F = Felt;

    type HashParam = HashParams;

    type Output = SendCircuit;

    /// The mocking circuit satisfies the relation, spends a four-unit
    /// note standing at position zero, transfers one unit, and binds its
    /// authorization tag to the hash of the four-slot recipient
    /// ciphertext.
    open spec fn output_ok(out: &SendCircuit) -> bool {
        &&& out.satisfied()
        &&& out.witness.v_cur matches Some(f) && f@ == 4
        &&& out.witness.v matches Some(f) && f@ == 1
        &&& out.witness.leaf_pos == Some(0u32)
        &&& out.instance.tag matches Some(t) && t@ == hash_of(
            seq![
                cipher_slot(out.witness.k_point_x.unwrap().k@, 0, out.plain()[0]),
                cipher_slot(out.witness.k_point_x.unwrap().k@, 1, out.plain()[1]),
                cipher_slot(out.witness.k_point_x.unwrap().k@, 2, out.plain()[2]),
                cipher_slot(out.witness.k_point_x.unwrap().k@, 3, out.plain()[3]),
            ],
        )
    }

    /// The mocking membership path must realize the height.
    open spec fn height_ok(tree_height: u64) -> bool {
        2 <= tree_height && tree_height - 2 <= usize::MAX
    }

    /// Draws fresh key material and randomness and spends a four-unit
    /// note, transferring one unit.
    fn generate_circuit(tree_height: u64) -> (res: Result<SendCircuit, Error>) {
        let hash_params = get_poseidon_params();
        let generator = crate::curve::te_generator();
        let params = elgamal::Parameters { generator };
        let apk = elgamal::keygen(&params, &random_scalar());
        let pk_rcv = elgamal::keygen(&params, &random_scalar());
        let sk_snd = random_scalar();
        let o_cur = random_fp();
        let o_v = random_fp();
        let o_new = random_fp();
        let r = random_scalar();
        let k = random_point();
        Ok(
            SendCircuit::build(
                hash_params,
                generator,
                apk,
                pk_rcv,
                sk_snd,
                4,
                1,
                o_cur,
                o_v,
                o_new,
                r,
                k,
                tree_height,
            ),
        )
    }
}

/// Law: balance conservation.  For a populated, well-shaped Send
/// relation whose value fields encode bounded quantities, satisfaction
/// forces `v <= v_cur` together with the change commitment
/// `cm_new = H(addr_snd, v_cur - v, sn_new, o_new)`; and any witness
/// with `v > v_cur` leaves the relation unsatisfied.
pub proof fn lemma_send_balance_conservation(c: SendCircuit)
    requires
        c.assigned(),
        c.shaped(),
        c.witness.v.unwrap()@ <= half_modulus(),
        c.witness.v_cur.unwrap()@ <= half_modulus(),
    ensures
        c.satisfied() ==> c.witness.v.unwrap()@ <= c.witness.v_cur.unwrap()@,
        c.satisfied() ==> c.instance.cm_new.unwrap()@ == hash_of(
            seq![
                c.witness.addr_snd.unwrap()@,
                (c.witness.v_cur.unwrap()@ - c.witness.v.unwrap()@) as nat,
                c.witness.sn_new.unwrap()@,
                c.witness.o_new.unwrap()@,
            ],
        ),
        c.witness.v.unwrap()@ > c.witness.v_cur.unwrap()@ ==> !c.satisfied(),
{
    let v = c.witness.v.unwrap()@;
    let v_cur = c.witness.v_cur.unwrap()@;
    assert(half_modulus() < modulus());
    crate::field::lemma_sub_mod_cases(v_cur, v);
    if v > v_cur {
        assert(sub_mod(v_cur, v) == v_cur - v + modulus());
        assert(sub_mod(v_cur, v) > half_modulus());
        assert(!c.constraint(7));
    } else {
        if c.satisfied() {
            assert(c.constraint(6));
            assert(sub_mod(v_cur, v) == v_cur - v);
        }
    }
    if c.satisfied() && v > v_cur {
        assert(c.constraint(7));
    }
}

/// Law: a zero-value note cannot fund a positive transfer.  For a
/// populated, well-shaped Send relation with `v_cur = 0` and any
/// `v != 0` (as a canonical field value), the relation is unsatisfied.
pub proof fn lemma_send_zero_note_unsatisfied(c: SendCircuit)
    requires
        c.assigned(),
        c.shaped(),
        c.witness.v.unwrap()@ < modulus(),
        c.witness.v_cur.unwrap()@ == 0,
        c.witness.v.unwrap()@ != 0,
    ensures
        !c.satisfied(),
{
    let v = c.witness.v.unwrap()@;
    assert(half_modulus() < modulus());
    if v > half_modulus() {
        assert(!c.constraint(8));
        if c.satisfied() {
            assert(c.constraint(8));
        }
    } else {
        crate::field::lemma_sub_mod_cases(0, v);
        assert(sub_mod(0, v) == modulus() - v);
        assert(sub_mod(0, v) > half_modulus());
        assert(!c.constraint(7));
        if c.satisfied() {
            assert(c.constraint(7));
        }
    }
}

} // verus!
