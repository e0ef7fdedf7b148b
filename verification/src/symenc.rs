//! The symmetric body cipher of the hybrid encryption scheme.
//!
//! For key `k` and slot index `i`, slot `i` of a plaintext vector is
//! enciphered as `c_i = H(k, i) + m_i` (field addition) and deciphered as
//! `m_i = c_i - H(k, i)`.  The nonce of a slot is its position index, not
//! fresh randomness: the scheme is secure only because each key is the
//! x-coordinate of a fresh ephemeral wrap point, used for one operation.

use vstd::prelude::*;

use crate::field::{add_mod, fp_add, fp_sub, modulus, sub_mod, Felt};
use crate::hash::{hash2, hash_of, HashParams};
use crate::Error;

verus! {

/// The slot nonce: the position index of the slot, as a field element.
#[derive(Clone, Copy, PartialEq, Eq, Structural, Debug)]
pub struct Randomness {
    pub r: Felt,
}

/// The keystream key, the x-coordinate of the wrapped ephemeral point.
#[derive(Clone, Copy, PartialEq, Eq, Structural, Debug)]
pub struct SymmetricKey {
    pub k: Felt,
}

/// One enciphered slot, together with the nonce it was formed under.
#[derive(Clone, Copy, PartialEq, Eq, Structural, Debug)]
pub struct Ciphertext {
    pub r: Felt,
    pub c: Felt,
}

/// One plaintext slot.
#[derive(Clone, Copy, PartialEq, Eq, Structural, Debug)]
pub struct Plaintext {
    pub m: Felt,
}

/// What slot `i` of the keystream cipher holds for key `k` and message
/// value `m`.
pub open spec fn cipher_slot(k: nat, i: nat, m: nat) -> nat {
    add_mod(hash_of(seq![k, i]), m)
}

/// The hash-keystream cipher, natively.
pub struct SymmetricEncryptionScheme;

impl SymmetricEncryptionScheme {
    /// Enciphers one slot: `c = H(k, r) + m`.
    pub fn encrypt(
        hash_params: &HashParams,
        r: Randomness,
        k: SymmetricKey,
        m: Plaintext,
    ) -> (res: Result<Ciphertext, Error>)
        ensures
            res matches Ok(ct) && ct.r@ == r.r@ && ct.c@ == cipher_slot(k.k@, r.r@, m.m@),
    {
        let h = hash2(hash_params, &k.k, &r.r);
        let c = fp_add(&h, &m.m);
        Ok(Ciphertext { r: r.r, c })
    }

    /// Deciphers one slot: `m = c - H(k, r)`.
    pub fn decrypt(
        hash_params: &HashParams,
        k: SymmetricKey,
        ct: Ciphertext,
    ) -> (res: Result<Plaintext, Error>)
        ensures
            res matches Ok(m) && m.m@ == sub_mod(ct.c@, hash_of(seq![k.k@, ct.r@])),
    {
        let h = hash2(hash_params, &k.k, &ct.r);
        let m = fp_sub(&ct.c, &h);
        Ok(Plaintext { m })
    }
}

/// Law: symmetric round trip.  For every key `k`, slot index `i` and
/// reduced message value `m`, deciphering the enciphered slot returns the
/// message: `decrypt(encrypt(m, k, i), k, i) == m`.
pub proof fn lemma_symmetric_round_trip(k: nat, i: nat, m: nat)
    requires
        m < modulus(),
    ensures
        sub_mod(cipher_slot(k, i, m), hash_of(seq![k, i])) == m,
{
    crate::field::lemma_add_then_sub_mod(hash_of(seq![k, i]), m);
}

} // verus!
