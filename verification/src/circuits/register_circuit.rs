//! The Register relation: mint a zero-value note bound to a fresh key,
//! fully disclosed to the auditor.
//!
//! Constraints, in checking order:
//!   0: `pk = G^sk` (ownership)
//!   1: `addr = H(pk.x, pk.y)` (address binding)
//!   2: `v = 0` (registration mints no value)
//!   3: `sn = H(sk, o)` (serial number as PRF)
//!   4: `cm = H(addr, v, sn, o)` (note commitment)
//!   5: key wrap: `(g_r, k_a) = (G^r, apk^r · k)`
//!   6: the symmetric key is the x-coordinate of the wrapped point
//!   7 + i, for slots i = 0..6: `ct_bar[i] = H(k_x, i) + plain[i]` with
//!      plaintext `(pk.x, pk.y, cm, addr, v, sn, o)`

use vstd::prelude::*;

use crate::circuits::MockingCircuit;
use crate::curve::{point_eq, point_mul, point_mul_of, random_point, Point};
use crate::elgamal;
use crate::elgamal::wrap_body_of;
use crate::field::{fp_add, fp_eq, random_fp, random_scalar, Felt};
use crate::hash::{get_poseidon_params, hash2, hash4, hash_of, seq_vals, HashParams};
use crate::symenc::{cipher_slot, SymmetricKey};
use crate::Error;

verus! {

broadcast use crate::curve::lemma_point_view;

/// The public instance of a Register operation.
#[derive(Clone)]
pub struct RegisterInstance {
    pub cm: Option<Felt>,
    pub ct_bar: Option<Vec<Felt>>,
    pub apk: Option<Point>,
    pub g_r: Option<Point>,
    pub k_a: Option<Point>,
}

/// The private witness of a Register operation.
#[derive(Clone)]
pub struct RegisterWitness {
    pub sk: Option<Felt>,
    pub pk: Option<Point>,
    pub addr: Option<Felt>,
    pub v: Option<Felt>,
    pub sn: Option<Felt>,
    pub o: Option<Felt>,
    pub k: Option<Point>,
    pub r: Option<Felt>,
    pub k_x: Option<SymmetricKey>,
}

/// A populated Register relation.
#[derive(Clone)]
pub struct RegisterCircuit {
    pub hash_params: HashParams,
    pub generator: Point,
    pub instance: RegisterInstance,
    pub witness: RegisterWitness,
}

impl RegisterCircuit {
    /// How many constraints the relation has.
    pub open spec fn num_constraints() -> int {
        14
    }

    /// Every instance and witness field carries an assignment.
    pub open spec fn assigned(self) -> bool {
        &&& self.instance.cm is Some
        &&& self.instance.ct_bar is Some
        &&& self.instance.apk is Some
        &&& self.instance.g_r is Some
        &&& self.instance.k_a is Some
        &&& self.witness.sk is Some
        &&& self.witness.pk is Some
        &&& self.witness.addr is Some
        &&& self.witness.v is Some
        &&& self.witness.sn is Some
        &&& self.witness.o is Some
        &&& self.witness.k is Some
        &&& self.witness.r is Some
        &&& self.witness.k_x is Some
    }

    /// The auditor ciphertext has its fixed seven slots.
    pub open spec fn shaped(self) -> bool {
        self.instance.ct_bar.unwrap()@.len() == 7
    }

    /// The auditor plaintext vector, in its fixed slot order.
    pub open spec fn plain(self) -> Seq<nat> {
        let pk = self.witness.pk.unwrap()@;
        seq![
            pk.0,
            pk.1,
            self.instance.cm.unwrap()@,
            self.witness.addr.unwrap()@,
            self.witness.v.unwrap()@,
            self.witness.sn.unwrap()@,
            self.witness.o.unwrap()@,
        ]
    }

    /// Constraint `j` of the relation.
    pub open spec fn constraint(self, j: int) -> bool
        recommends
            self.assigned(),
            self.shaped(),
    {
        let g = self.generator@;
        let sk = self.witness.sk.unwrap()@;
        let pk = self.witness.pk.unwrap()@;
        let addr = self.witness.addr.unwrap()@;
        let v = self.witness.v.unwrap()@;
        let sn = self.witness.sn.unwrap()@;
        let o = self.witness.o.unwrap()@;
        let k = self.witness.k.unwrap()@;
        let r = self.witness.r.unwrap()@;
        let kx = self.witness.k_x.unwrap().k@;
        let cm = self.instance.cm.unwrap()@;
        let apk = self.instance.apk.unwrap()@;
        let ct = seq_vals(self.instance.ct_bar.unwrap()@);
        if j == 0 {
            pk == point_mul_of(g.0, g.1, sk)
        } else if j == 1 {
            addr == hash_of(seq![pk.0, pk.1])
        } else if j == 2 {
            v == 0
        } else if j == 3 {
            sn == hash_of(seq![sk, o])
        } else if j == 4 {
            cm == hash_of(seq![addr, v, sn, o])
        } else if j == 5 {
            self.instance.g_r.unwrap()@ == point_mul_of(g.0, g.1, r)
                && self.instance.k_a.unwrap()@ == wrap_body_of(apk, k, r)
        } else if j == 6 {
            kx == k.0
        } else if 7 <= j < 14 {
            ct[j - 7] == cipher_slot(kx, (j - 7) as nat, self.plain()[j - 7])
        } else {
            true
        }
    }

    /// The whole relation: populated, well-shaped, every constraint met.
    pub open spec fn satisfied(self) -> bool {
        &&& self.assigned()
        &&& self.shaped()
        &&& forall|j: int| 0 <= j < Self::num_constraints() ==> self.constraint(j)
    }

    /// Decides the relation.  Reports a missing assignment, a malformed
    /// ciphertext shape, or the first failing constraint.
    pub fn check(&self) -> (res: Result<(), Error>)
        ensures
            match res {
                Ok(()) => self.satisfied(),
                Err(e) => match e {
                    Error::MissingAssignment => !self.assigned(),
                    Error::MalformedInput => self.assigned() && !self.shaped(),
                    Error::Unsatisfied(j) => self.assigned() && self.shaped()
                        && 0 <= j < Self::num_constraints() && !self.constraint(j as int)
                        && (forall|t: int| 0 <= t < j ==> self.constraint(t)),
                },
            },
    {
        let cm = match self.instance.cm {
            Some(x) => x,
            None => { return Err(Error::MissingAssignment) },
        };
        let ct_bar = match &self.instance.ct_bar {
            Some(x) => x,
            None => { return Err(Error::MissingAssignment) },
        };
        let apk = match self.instance.apk {
            Some(x) => x,
            None => { return Err(Error::MissingAssignment) },
        };
        let g_r = match self.instance.g_r {
            Some(x) => x,
            None => { return Err(Error::MissingAssignment) },
        };
        let k_a = match self.instance.k_a {
            Some(x) => x,
            None => { return Err(Error::MissingAssignment) },
        };
        let sk = match self.witness.sk {
            Some(x) => x,
            None => { return Err(Error::MissingAssignment) },
        };
        let pk = match self.witness.pk {
            Some(x) => x,
            None => { return Err(Error::MissingAssignment) },
        };
        let addr = match self.witness.addr {
            Some(x) => x,
            None => { return Err(Error::MissingAssignment) },
        };
        let v = match self.witness.v {
            Some(x) => x,
            None => { return Err(Error::MissingAssignment) },
        };
        let sn = match self.witness.sn {
            Some(x) => x,
            None => { return Err(Error::MissingAssignment) },
        };
        let o = match self.witness.o {
            Some(x) => x,
            None => { return Err(Error::MissingAssignment) },
        };
        let k = match self.witness.k {
            Some(x) => x,
            None => { return Err(Error::MissingAssignment) },
        };
        let r = match self.witness.r {
            Some(x) => x,
            None => { return Err(Error::MissingAssignment) },
        };
        let k_x = match self.witness.k_x {
            Some(x) => x,
            None => { return Err(Error::MissingAssignment) },
        };
        if ct_bar.len() != 7 {
            return Err(Error::MalformedInput);
        }

        let params = &self.hash_params;
        let pk_computed = point_mul(&self.generator, &sk);
        if !point_eq(&pk, &pk_computed) {
            return Err(Error::Unsatisfied(0));
        }
        let addr_computed = hash2(params, &pk.x, &pk.y);
        if !fp_eq(&addr, &addr_computed) {
            return Err(Error::Unsatisfied(1));
        }
        if !v.is_zero() {
            return Err(Error::Unsatisfied(2));
        }
        let sn_computed = hash2(params, &sk, &o);
        if !fp_eq(&sn, &sn_computed) {
            return Err(Error::Unsatisfied(3));
        }
        let cm_computed = hash4(params, &addr, &v, &sn, &o);
        if !fp_eq(&cm, &cm_computed) {
            return Err(Error::Unsatisfied(4));
        }
        let wrap = elgamal::encrypt(
            &elgamal::Parameters { generator: self.generator },
            &apk,
            &k,
            &r,
        );
        if !(point_eq(&g_r, &wrap.0) && point_eq(&k_a, &wrap.1)) {
            return Err(Error::Unsatisfied(5));
        }
        if !fp_eq(&k_x.k, &k.x) {
            return Err(Error::Unsatisfied(6));
        }

        let plain: Vec<Felt> = vec![pk.x, pk.y, cm, addr, v, sn, o];
        proof {
            assert(seq_vals(plain@) =~= self.plain());
            assert(self.constraint(0));
            assert(self.constraint(1));
            assert(self.constraint(2));
            assert(self.constraint(3));
            assert(self.constraint(4));
            assert(self.constraint(5));
            assert(self.constraint(6));
        }
        let mut i: usize = 0;
        while i < 7
            invariant
                self.assigned(),
                self.shaped(),
                forall|t: int| 0 <= t < 7 ==> self.constraint(t),
                i <= 7,
                ct_bar == self.instance.ct_bar.unwrap(),
                ct_bar@.len() == 7,
                plain@.len() == 7,
                seq_vals(plain@) == self.plain(),
                k_x == self.witness.k_x.unwrap(),
                forall|t: int| 0 <= t < i ==> self.constraint(#[trigger] (7 + t)),
            decreases 7 - i,
        {
            let nonce = Felt::from_u64(i as u64);
            let h = hash2(params, &k_x.k, &nonce);
            let expected = fp_add(&h, &plain[i]);
            proof {
                assert(seq_vals(plain@)[i as int] == plain@[i as int]@);
                assert(seq_vals(ct_bar@)[i as int] == ct_bar@[i as int]@);
                assert(seq![k_x.k@, nonce@] =~= seq![k_x.k@, i as nat]);
                assert(expected@ == cipher_slot(k_x.k@, i as nat, self.plain()[i as int]));
            }
            if !fp_eq(&ct_bar[i], &expected) {
                proof {
                    assert(!self.constraint(7 + i as int));
                    assert forall|t: int| 0 <= t < 7 + i implies self.constraint(t) by {
                        if t >= 7 {
                            let u = t - 7;
                            assert(self.constraint(7 + u));
                        }
                    }
                }
                return Err(Error::Unsatisfied(7 + i));
            }
            proof {
                assert(self.constraint(#[trigger] (7 + i as int)));
            }
            i = i + 1;
        }
        proof {
            assert forall|j: int| 0 <= j < Self::num_constraints() implies self.constraint(j) by {
                if j >= 7 {
                    let u = j - 7;
                    assert(self.constraint(7 + u));
                }
            }
        }
        Ok(())
    }

    /// Builds a satisfied Register relation from the caller's key
    /// material and randomness: auditor key `apk`, spend secret `sk`,
    /// opening `o`, wrap scalar `r` and wrap point `k`.  The output
    /// embeds exactly the caller's parameters and key material.
    pub fn build(
        hash_params: HashParams,
        generator: Point,
        apk: Point,
        sk: Felt,
        o: Felt,
        r: Felt,
        k: Point,
    ) -> (c: RegisterCircuit)
        ensures
            c.satisfied(),
            c.hash_params == hash_params,
            c.generator == generator,
            c.instance.apk == Some(apk),
            c.witness.sk == Some(sk),
            c.witness.o == Some(o),
            c.witness.r == Some(r),
            c.witness.k == Some(k),
    {
        let params = elgamal::Parameters { generator };
        let pk = elgamal::keygen(&params, &sk);
        let addr = hash2(&hash_params, &pk.x, &pk.y);
        let v = Felt::from_u64(0);
        let sn = hash2(&hash_params, &sk, &o);
        let cm = hash4(&hash_params, &addr, &v, &sn, &o);
        let wrap = elgamal::encrypt(&params, &apk, &k, &r);
        let k_x = SymmetricKey { k: k.x };

        let plain: Vec<Felt> = vec![pk.x, pk.y, cm, addr, v, sn, o];
        let mut ct_bar: Vec<Felt> = Vec::new();
        let mut i: usize = 0;
        while i < 7
            invariant
                i <= 7,
                plain@.len() == 7,
                ct_bar@.len() == i,
                forall|t: int| 0 <= t < i ==> seq_vals(ct_bar@)[t] == cipher_slot(
                    k_x.k@,
                    t as nat,
                    seq_vals(plain@)[t],
                ),
            decreases 7 - i,
        {
            let nonce = Felt::from_u64(i as u64);
            let h = hash2(&hash_params, &k_x.k, &nonce);
            let slot = fp_add(&h, &plain[i]);
            proof {
                assert(seq![k_x.k@, nonce@] =~= seq![k_x.k@, i as nat]);
                assert(seq_vals(plain@)[i as int] == plain@[i as int]@);
                assert(slot@ == cipher_slot(k_x.k@, i as nat, seq_vals(plain@)[i as int]));
            }
            let ghost prev = ct_bar@;
            ct_bar.push(slot);
            proof {
                assert(seq_vals(ct_bar@) =~= seq_vals(prev).push(slot@));
            }
            i = i + 1;
        }

        let instance = RegisterInstance {
            cm: Some(cm),
            ct_bar: Some(ct_bar),
            apk: Some(apk),
            g_r: Some(wrap.0),
            k_a: Some(wrap.1),
        };
        let witness = RegisterWitness {
            sk: Some(sk),
            pk: Some(pk),
            addr: Some(addr),
            v: Some(v),
            sn: Some(sn),
            o: Some(o),
            k: Some(k),
            r: Some(r),
            k_x: Some(k_x),
        };
        let c = RegisterCircuit { hash_params, generator, instance, witness };
        proof {
            assert(seq_vals(c.instance.ct_bar.unwrap()@) == seq_vals(c.instance.ct_bar.unwrap()@));
            assert(c.plain() =~= seq_vals(plain@));
            assert forall|j: int| 0 <= j < Self::num_constraints() implies c.constraint(j) by {
                if 7 <= j < 14 {
                    assert(seq_vals(c.instance.ct_bar.unwrap()@)[j - 7] == cipher_slot(
                        k_x.k@,
                        (j - 7) as nat,
                        seq_vals(plain@)[j - 7],
                    ));
                }
            }
        }
        c
    }
}

/// Law: ownership, the honest direction.  A populated Register relation
/// whose witness keypair was generated as `pk = G^sk` meets the
/// ownership constraint.
pub proof fn lemma_generated_keypair_owns(c: RegisterCircuit)
    requires
        c.assigned(),
        c.witness.pk.unwrap()@ == point_mul_of(
            c.generator@.0,
            c.generator@.1,
            c.witness.sk.unwrap()@,
        ),
    ensures
        c.constraint(0),
{
}

/// Law: ownership, the negative direction.  A populated, well-shaped
/// Register relation whose witness public key is not the generator
/// multiple of its witness secret is unsatisfied.
pub proof fn lemma_wrong_secret_unsatisfied(c: RegisterCircuit)
    requires
        c.assigned(),
        c.shaped(),
        c.witness.pk.unwrap()@ != point_mul_of(
            c.generator@.0,
            c.generator@.1,
            c.witness.sk.unwrap()@,
        ),
    ensures
        !c.satisfied(),
{
    assert(!c.constraint(0));
    if c.satisfied() {
        assert(c.constraint(0));
    }
}

impl MockingCircuit for RegisterCircuit {
    type F = Felt;

    type HashParam = HashParams;

    type Output = RegisterCircuit;

    open spec fn output_ok(out: &RegisterCircuit) -> bool {
        out.satisfied()
    }

    /// Registration involves no tree: any height is accepted.
    open spec fn height_ok(tree_height: u64) -> bool {
        true
    }

    /// Draws fresh key material and randomness and mints a zero-value
    /// note; the tree height plays no part in registration.
    fn generate_circuit(tree_height: u64) -> (res: Result<RegisterCircuit, Error>) {
        let hash_params = get_poseidon_params();
        let generator = random_point();
        let apk_sk = random_scalar();
        let params = elgamal::Parameters { generator };
        let apk = elgamal::keygen(&params, &apk_sk);
        let sk = random_scalar();
        let o = random_fp();
        let r = random_scalar();
        let k = random_point();
        Ok(RegisterCircuit::build(hash_params, generator, apk, sk, o, r, k))
    }
}

} // verus!
