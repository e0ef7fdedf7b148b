//! Tests of the Merkle accumulator's membership proofs.

use aegis_circuit::field::Felt;
use aegis_circuit::hash::get_poseidon_params;
use aegis_circuit::merkle::{
    get_mocking_merkle_tree, get_mocking_merkle_tree2, select_left_right_child,
    MockingMerkleTree, Path,
};

#[test]
fn test_get_mocking_merkle_tree() {
    let tree_height: u64 = 5;
    let path: Path = get_mocking_merkle_tree(tree_height);
    assert_eq!(path.auth_path.len(), (tree_height - 2) as usize);
    assert!(path.auth_path.iter().all(|x| *x == Felt::from_u64(0)));
}

#[test]
fn test_get_test_root() {
    let tree_height: u64 = 32;
    let leaf: Felt = Felt::from_limbs(
        0xf75726d4a0e2219c,
        0x00e3e642533bb600,
        0xb02c7436465d69f1,
        0x11b7c77ce8889376,
    )
    .unwrap();
    println!("Leaf: {:?}", leaf);
    let leaf_hash_params = get_poseidon_params();
    let two_to_one_params = get_poseidon_params();
    let path: Path = get_mocking_merkle_tree2(tree_height, &leaf_hash_params, &two_to_one_params);
    println!("Path: {:?}", path);
    let leaf_vec = vec![leaf];
    let rt = path
        .get_test_root(tree_height, &leaf_hash_params, &two_to_one_params, &leaf_vec)
        .unwrap();
    println!("Root: {:?}", rt);
    assert!(path
        .verify(tree_height, &leaf_hash_params, &two_to_one_params, &rt, &leaf_vec)
        .unwrap());
}

#[test]
fn select_orders_by_parity() {
    let a = Felt::from_u64(10);
    let b = Felt::from_u64(20);
    assert_eq!(select_left_right_child(0, &a, &b).unwrap(), (a, b));
    assert_eq!(select_left_right_child(1, &a, &b).unwrap(), (b, a));
    assert_eq!(select_left_right_child(6, &a, &b).unwrap(), (a, b));
    assert_eq!(select_left_right_child(7, &a, &b).unwrap(), (b, a));
}

#[test]
fn honest_path_verifies_and_tampering_fails() {
    // An honestly constructed path verifies against the true root, and
    // fails against any flipped sibling, index or leaf.
    let params = get_poseidon_params();
    let height: u64 = 10;
    let path = get_mocking_merkle_tree2(height, &params, &params);
    let leaf = vec![Felt::from_u64(123456)];
    let rt = path.get_test_root(height, &params, &params, &leaf).unwrap();
    // a proof of the wrong length for the declared height is rejected
    assert_eq!(
        path.get_test_root(height + 1, &params, &params, &leaf),
        Err(aegis_circuit::Error::MalformedInput)
    );
    assert_eq!(
        path.verify(height - 1, &params, &params, &rt, &leaf),
        Err(aegis_circuit::Error::MalformedInput)
    );
    assert!(path.verify_membership(0, &params, &params, &rt, &leaf));

    // a different declared root
    let wrong_rt = Felt::from_u64(1);
    assert!(!path.verify_membership(0, &params, &params, &wrong_rt, &leaf));

    // a flipped sibling
    let mut tampered = path.clone();
    tampered.leaf_sibling_hash = Felt::from_u64(1);
    assert!(!tampered.verify_membership(0, &params, &params, &rt, &leaf));
    let mut tampered2 = path.clone();
    tampered2.auth_path[3] = Felt::from_u64(1);
    assert!(!tampered2.verify_membership(0, &params, &params, &rt, &leaf));

    // a flipped index
    assert!(!path.verify_membership(1, &params, &params, &rt, &leaf));

    // a flipped leaf
    let other_leaf = vec![Felt::from_u64(123457)];
    assert!(!path.verify_membership(0, &params, &params, &rt, &other_leaf));
}

#[test]
fn path_length_matches_the_tree_height() {
    let path = get_mocking_merkle_tree(33);
    assert!(path.matches_height(33));
    assert!(!path.matches_height(32));
    assert!(!path.matches_height(34));
}

#[test]
fn two_leaf_membership() {
    // a pair of co-leaves forms the bottom hash directly
    let params = get_poseidon_params();
    let path = get_mocking_merkle_tree(8);
    let pair = vec![Felt::from_u64(5), Felt::from_u64(6)];
    let rt = path.get_test_root(8, &params, &params, &pair).unwrap();
    assert!(path.verify_membership(0, &params, &params, &rt, &pair));
    // swapping the co-leaves changes the root
    let swapped = vec![Felt::from_u64(6), Felt::from_u64(5)];
    assert!(!path.verify_membership(0, &params, &params, &rt, &swapped));
}
