use fundraising_program::hashing::{push_bytes, push_u32_le, push_u64_le};
use fundraising_program::merkle::{bytes32_equal, compute_merkle_leaf, verify_merkle_proof};
use fundraising_program::pubkey::{option_holds_key, Pubkey};
use sha2::{Digest, Sha256};

fn sha(bytes: &[u8]) -> [u8; 32] {
    Sha256::digest(bytes).into()
}

fn parent(a: &[u8; 32], b: &[u8; 32]) -> [u8; 32] {
    let mut message = Vec::new();
    if a <= b {
        message.extend_from_slice(a);
        message.extend_from_slice(b);
    } else {
        message.extend_from_slice(b);
        message.extend_from_slice(a);
    }
    sha(&message)
}

#[test]
fn little_endian_pushes() {
    let mut out = vec![9u8];
    push_u32_le(&mut out, 0x0403_0201);
    assert_eq!(out, vec![9, 1, 2, 3, 4]);
    push_u64_le(&mut out, 0x0807_0605_0403_0201);
    assert_eq!(out, vec![9, 1, 2, 3, 4, 1, 2, 3, 4, 5, 6, 7, 8]);
    push_bytes(&mut out, &[42, 43]);
    assert_eq!(out.len(), 15);
    assert_eq!(&out[13..], &[42, 43]);
}

#[test]
fn bytes32_equality() {
    let a = [7u8; 32];
    let mut b = [7u8; 32];
    assert!(bytes32_equal(&a, &b));
    b[31] = 8;
    assert!(!bytes32_equal(&a, &b));
}

#[test]
fn pubkey_comparisons() {
    let a = Pubkey([1u8; 32]);
    let b = Pubkey([2u8; 32]);
    assert!(a.same_as(&Pubkey([1u8; 32])));
    assert!(!a.same_as(&b));
    assert!(option_holds_key(&Some(a), &a));
    assert!(!option_holds_key(&Some(b), &a));
    assert!(!option_holds_key(&None, &a));
}

#[test]
fn merkle_leaf_hashes_user_and_score() {
    let user = Pubkey([3u8; 32]);
    let mut message = vec![3u8; 32];
    message.extend_from_slice(&750u32.to_le_bytes());
    assert_eq!(compute_merkle_leaf(&user, 750), sha(&message));
    assert_ne!(compute_merkle_leaf(&user, 750), compute_merkle_leaf(&user, 751));
}

#[test]
fn merkle_proof_of_two_leaves() {
    let leaf_a = compute_merkle_leaf(&Pubkey([1u8; 32]), 100);
    let leaf_b = compute_merkle_leaf(&Pubkey([2u8; 32]), 200);
    let root = parent(&leaf_a, &leaf_b);
    assert_eq!(verify_merkle_proof::<()>(&root, &leaf_a, &[leaf_b]), Ok(true));
    assert_eq!(verify_merkle_proof::<()>(&root, &leaf_b, &[leaf_a]), Ok(true));
    assert_eq!(verify_merkle_proof::<()>(&root, &leaf_a, &[leaf_a]), Ok(false));
}

#[test]
fn merkle_proof_of_four_leaves() {
    let leaves: Vec<[u8; 32]> =
        (0u8..4).map(|i| compute_merkle_leaf(&Pubkey([i; 32]), 10 * i as u32)).collect();
    let left = parent(&leaves[0], &leaves[1]);
    let right = parent(&leaves[2], &leaves[3]);
    let root = parent(&left, &right);
    assert_eq!(verify_merkle_proof::<()>(&root, &leaves[2], &[leaves[3], left]), Ok(true));
    assert_eq!(verify_merkle_proof::<()>(&root, &leaves[2], &[left, leaves[3]]), Ok(false));
}

#[test]
fn empty_proof_verifies_only_the_root() {
    let leaf = compute_merkle_leaf(&Pubkey([5u8; 32]), 1);
    assert_eq!(verify_merkle_proof::<()>(&leaf, &leaf, &[]), Ok(true));
    assert_eq!(verify_merkle_proof::<()>(&[0u8; 32], &leaf, &[]), Ok(false));
}
