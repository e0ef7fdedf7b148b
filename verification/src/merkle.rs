//! The Merkle accumulator: authenticated membership paths over `H`.
//!
//! A `Path` proves that a designated leaf (or a pair of co-leaves hashed
//! together) stands at a given index of an append-only binary hash tree
//! with a declared root.  Verification recomputes the root: hash the
//! leaf, pair it with the bottom sibling ordered by the parity of the
//! index, then climb level by level, halving the index and combining
//! with each level's sibling through the two-to-one compression.

use vstd::prelude::*;

use crate::field::{fp_eq, Felt};
use crate::hash::{hash2, hash_of, poseidon_hash, seq_vals, HashParams};
use crate::Error;

verus! {

/// One climb of the authentication ladder: combine `start` with each
/// sibling in turn, taking the left slot when the running index is even.
pub open spec fn climb(start: nat, index: nat, siblings: Seq<nat>) -> nat
    decreases siblings.len(),
{
    if siblings.len() == 0 {
        start
    } else {
        let next = if index % 2 == 0 {
            hash_of(seq![start, siblings[0]])
        } else {
            hash_of(seq![siblings[0], start])
        };
        climb(next, index / 2, siblings.drop_first())
    }
}

/// A membership proof: the leaf's position, the sibling of the leaf
/// itself, and one sibling per upper level, stored from the top of the
/// tree down (as the proving backend emits them).
#[derive(Clone, PartialEq, Eq, Debug)]
pub struct Path {
    pub leaf_index: usize,
    pub auth_path: Vec<Felt>,
    pub leaf_sibling_hash: Felt,
}

impl Path {
    /// The siblings in climbing order: the leaf sibling first, then the
    /// upper levels from the bottom up.
    pub open spec fn siblings(self) -> Seq<nat> {
        seq![self.leaf_sibling_hash@] + seq_vals(self.auth_path@).reverse()
    }

    /// The root that this path reproduces for leaf values `leaf` placed
    /// at `index`.
    pub open spec fn root_for(self, index: nat, leaf: Seq<nat>) -> nat {
        climb(hash_of(leaf), index, self.siblings())
    }

    /// Membership as `verify_membership` decides it: the path reproduces
    /// the declared root for this leaf and index.
    pub open spec fn membership_holds(self, index: nat, leaf: Seq<nat>, rt: nat) -> bool {
        self.root_for(index, leaf) == rt
    }

    /// Recomputes the root for the given leaf values at the given index.
    pub fn calculate_root(
        &self,
        index: usize,
        leaf_hash_params: &HashParams,
        two_to_one_params: &HashParams,
        leaf: &Vec<Felt>,
    ) -> (rt: Felt)
        ensures
            rt@ == self.root_for(index as nat, seq_vals(leaf@)),
    {
        let ghost full = self.siblings();
        let ghost upper = seq_vals(self.auth_path@).reverse();
        let leaf_hash = poseidon_hash(leaf_hash_params, leaf);

        let pair = match select_left_right_child(index, &leaf_hash, &self.leaf_sibling_hash) {
            Ok(p) => p,
            Err(e) => {
                return leaf_hash;  // unreachable: selection is total
            },
        };
        let mut curr = hash2(two_to_one_params, &pair.0, &pair.1);
        let mut idx: usize = index / 2;
        proof {
            assert(full[0] == self.leaf_sibling_hash@);
            assert(full.drop_first() =~= upper);
            assert(climb(hash_of(seq_vals(leaf@)), index as nat, full) == climb(
                curr@,
                idx as nat,
                upper,
            ));
            assert(upper.skip(0) =~= upper);
        }

        let n = self.auth_path.len();
        let mut j: usize = 0;
        while j < n
            invariant
                n == self.auth_path.len(),
                j <= n,
                upper == seq_vals(self.auth_path@).reverse(),
                upper.len() == n,
                climb(curr@, idx as nat, upper.skip(j as int)) == climb(
                    hash_of(seq_vals(leaf@)),
                    index as nat,
                    self.siblings(),
                ),
            decreases n - j,
        {
            let sib = self.auth_path[n - 1 - j];
            let ghost rem = upper.skip(j as int);
            proof {
                assert(rem[0] == upper[j as int]);
                assert(upper[j as int] == seq_vals(self.auth_path@)[n - 1 - j]);
                assert(rem.drop_first() =~= upper.skip(j + 1));
            }
            let pair = match select_left_right_child(idx, &curr, &sib) {
                Ok(p) => p,
                Err(e) => {
                    return curr;  // unreachable: selection is total
                },
            };
            curr = hash2(two_to_one_params, &pair.0, &pair.1);
            idx = idx / 2;
            j = j + 1;
        }
        proof {
            assert(upper.skip(n as int) =~= Seq::<nat>::empty());
        }
        curr
    }

    /// Whether this path proves membership of `leaf` at `index` under the
    /// declared root `root`.
    pub fn verify_membership(
        &self,
        index: usize,
        leaf_hash_params: &HashParams,
        two_to_one_params: &HashParams,
        root: &Felt,
        leaf: &Vec<Felt>,
    ) -> (r: bool)
        ensures
            r == self.membership_holds(index as nat, seq_vals(leaf@), root@),
    {
        let rt = self.calculate_root(index, leaf_hash_params, two_to_one_params, leaf);
        fp_eq(&rt, root)
    }

    /// Whether this path has the length that a tree of the given height
    /// demands.  A shorter path would reproduce a wrong root rather than
    /// be rejected, so callers gate on this before trusting a
    /// verification against a tree of known height.
    pub fn matches_height(&self, tree_height: u64) -> (r: bool)
        ensures
            r == (self.auth_path@.len() + 2 == tree_height),
    {
        let n = self.auth_path.len() as u64;
        n <= u64::MAX - 2 && n + 2 == tree_height
    }

    /// Membership at the path's own stored leaf position, for a tree of
    /// the given height.  A path of the wrong length is rejected rather
    /// than allowed to reproduce a root for some other height.
    pub fn verify(
        &self,
        tree_height: u64,
        leaf_hash_params: &HashParams,
        two_to_one_params: &HashParams,
        root: &Felt,
        leaf: &Vec<Felt>,
    ) -> (res: Result<bool, Error>)
        ensures
            match res {
                Ok(r) => self.auth_path@.len() + 2 == tree_height && r
                    == self.membership_holds(self.leaf_index as nat, seq_vals(leaf@), root@),
                Err(e) => e == Error::MalformedInput && self.auth_path@.len() + 2 != tree_height,
            },
    {
        if !self.matches_height(tree_height) {
            return Err(Error::MalformedInput);
        }
        Ok(self.verify_membership(self.leaf_index, leaf_hash_params, two_to_one_params, root, leaf))
    }
}

/// Orders a computed node and its sibling for the two-to-one compression:
/// an even index stands on the left.
pub fn select_left_right_child(
    index: usize,
    computed_hash: &Felt,
    sibling_hash: &Felt,
) -> (res: Result<(Felt, Felt), Error>)
    ensures
        res matches Ok(p) && p == if index % 2 == 0 {
            (*computed_hash, *sibling_hash)
        } else {
            (*sibling_hash, *computed_hash)
        },
{
    let is_left = index % 2 == 0;
    if is_left {
        Ok((*computed_hash, *sibling_hash))
    } else {
        Ok((*sibling_hash, *computed_hash))
    }
}

/// A mocking membership proof for position zero of a tree of the given
/// height: every sibling is zero, as for a tree whose other leaves are
/// all unassigned.
pub fn get_mocking_merkle_tree(tree_height: u64) -> (p: Path)
    requires
        2 <= tree_height,
        tree_height - 2 <= usize::MAX,
    ensures
        p.leaf_index == 0,
        p.leaf_sibling_hash@ == 0,
        p.auth_path@.len() == tree_height - 2,
        forall|i: int| 0 <= i < p.auth_path@.len() ==> p.auth_path@[i]@ == 0,
{
    let total: usize = (tree_height - 2) as usize;
    let mut auth_path: Vec<Felt> = Vec::new();
    let mut i: usize = 0;
    while i < total
        invariant
            i <= total,
            auth_path@.len() == i,
            forall|t: int| 0 <= t < i ==> auth_path@[t]@ == 0,
        decreases total - i,
    {
        auth_path.push(Felt::from_u64(0));
        i = i + 1;
    }
    Path { leaf_index: 0, auth_path, leaf_sibling_hash: Felt::from_u64(0) }
}

/// The inner-node digest of an all-blank subtree `level` levels above the
/// bottom inner layer: zeros compressed pairwise upward.
pub open spec fn blank_node(level: nat) -> nat
    decreases level,
{
    if level == 0 {
        hash_of(seq![0nat, 0nat])
    } else {
        let below = blank_node((level - 1) as nat);
        hash_of(seq![below, below])
    }
}

/// The membership proof for position zero of a blank tree of the given
/// height: the leaf sibling is the default (zero) leaf digest, and the
/// sibling of each upper level is the digest of an all-blank subtree.
pub fn get_mocking_merkle_tree2(
    tree_height: u64,
    leaf_hash_param: &HashParams,
    two_to_one_param: &HashParams,
) -> (p: Path)
    requires
        2 <= tree_height,
        tree_height - 2 <= usize::MAX,
    ensures
        p.leaf_index == 0,
        p.leaf_sibling_hash@ == 0,
        p.auth_path@.len() == tree_height - 2,
        forall|i: int| 0 <= i < p.auth_path@.len() ==> p.auth_path@[i]@ == blank_node(
            (p.auth_path@.len() - 1 - i) as nat,
        ),
{
    let total: usize = (tree_height - 2) as usize;
    let zero = Felt::from_u64(0);
    let mut node = hash2(two_to_one_param, &zero, &zero);
    // digests of blank subtrees, from the bottom level up
    let mut rising: Vec<Felt> = Vec::new();
    let mut i: usize = 0;
    while i < total
        invariant
            i <= total,
            rising@.len() == i,
            node@ == blank_node(i as nat),
            forall|t: int| 0 <= t < i ==> rising@[t]@ == blank_node(t as nat),
        decreases total - i,
    {
        rising.push(node);
        node = hash2(two_to_one_param, &node, &node);
        i = i + 1;
    }
    // the path stores them from the top of the tree down
    let mut auth_path: Vec<Felt> = Vec::new();
    let mut j: usize = 0;
    while j < total
        invariant
            j <= total,
            rising@.len() == total,
            auth_path@.len() == j,
            forall|t: int| 0 <= t < total ==> rising@[t]@ == blank_node(t as nat),
            forall|t: int| 0 <= t < j ==> auth_path@[t]@ == blank_node((total - 1 - t) as nat),
        decreases total - j,
    {
        auth_path.push(rising[total - 1 - j]);
        j = j + 1;
    }
    Path { leaf_index: 0, auth_path, leaf_sibling_hash: zero }
}

/// The mocking interface of membership proofs: recomputing the root that
/// a path attests to for a chosen leaf, without holding the whole tree.
pub trait MockingMerkleTree {
    /// The root that the proof reproduces for the given leaf values.
    spec fn test_root_spec(&self, leaf: Seq<nat>) -> nat;

    /// How many siblings the proof carries, the leaf sibling included.
    spec fn path_len_spec(&self) -> nat;

    /// Computes that root for a tree of the given height; a proof whose
    /// length does not fit the height is rejected, never silently folded
    /// into a root for some other height.
    fn get_test_root(
        &self,
        tree_height: u64,
        leaf_hash_params: &HashParams,
        two_to_one_params: &HashParams,
        leaf: &Vec<Felt>,
    ) -> (res: Result<Felt, Error>)
        ensures
            match res {
                Ok(rt) => self.path_len_spec() + 1 == tree_height && rt@ == self.test_root_spec(
                    seq_vals(leaf@),
                ),
                Err(e) => e == Error::MalformedInput && self.path_len_spec() + 1 != tree_height,
            },
    ;
}

impl MockingMerkleTree for Path {
    open spec fn test_root_spec(&self, leaf: Seq<nat>) -> nat {
        self.root_for(self.leaf_index as nat, leaf)
    }

    open spec fn path_len_spec(&self) -> nat {
        self.auth_path@.len() + 1
    }

    fn get_test_root(
        &self,
        tree_height: u64,
        leaf_hash_params: &HashParams,
        two_to_one_params: &HashParams,
        leaf: &Vec<Felt>,
    ) -> (res: Result<Felt, Error>) {
        if !self.matches_height(tree_height) {
            return Err(Error::MalformedInput);
        }
        Ok(self.calculate_root(self.leaf_index, leaf_hash_params, two_to_one_params, leaf))
    }
}

/// Law: Merkle membership, the honest direction.  For any path, leaf and
/// index, membership holds of the root that the path itself reproduces
/// (what `get_test_root` returns), and of no other declared root value.
pub proof fn lemma_honest_path_verifies(p: Path, index: nat, leaf: Seq<nat>, rt: nat)
    requires
        rt == p.root_for(index, leaf),
    ensures
        p.membership_holds(index, leaf, rt),
        forall|other: nat| other != rt ==> !p.membership_holds(index, leaf, other),
{
}

} // verus!
