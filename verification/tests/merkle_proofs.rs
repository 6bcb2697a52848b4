use blake2::{Blake2b512, Digest};
use mue_engine::merkle::{compute_leaf_from_wallet, compute_merkle_root, verify_merkle_proof};
use mue_engine::pki::PubKey;

fn hash_pair(left: &[u8; 64], right: &[u8; 64]) -> [u8; 64] {
    let mut hasher = Blake2b512::new();
    hasher.update(left);
    hasher.update(right);
    let mut out = [0u8; 64];
    out.copy_from_slice(&hasher.finalize());
    out
}

#[test]
fn leaf_is_the_blake2b512_of_the_identity() {
    let pk = PubKey::new([0xabu8; 32]);
    let leaf = compute_leaf_from_wallet(&pk);
    let mut expected = [0u8; 64];
    expected.copy_from_slice(&Blake2b512::digest([0xabu8; 32]));
    assert_eq!(leaf, expected);
    assert_ne!(&leaf[..32], pk.as_bytes());
}

#[test]
fn empty_tree_has_the_zero_root() {
    assert_eq!(compute_merkle_root(vec![]), [0u8; 64]);
}

#[test]
fn single_leaf_is_its_own_root() {
    let leaf = [0x11u8; 64];
    assert_eq!(compute_merkle_root(vec![leaf]), leaf);
}

#[test]
fn two_leaves_hash_to_their_pair() {
    let a = [1u8; 64];
    let b = [2u8; 64];
    assert_eq!(compute_merkle_root(vec![a, b]), hash_pair(&a, &b));
}

#[test]
fn odd_level_duplicates_its_last_node() {
    let a = [1u8; 64];
    let b = [2u8; 64];
    let c = [3u8; 64];
    let expected = hash_pair(&hash_pair(&a, &b), &hash_pair(&c, &c));
    assert_eq!(compute_merkle_root(vec![a, b, c]), expected);
}

#[test]
fn valid_proofs_verify_for_every_leaf() {
    let leaves: Vec<[u8; 64]> = (0u8..4).map(|i| [i; 64]).collect();
    let root = compute_merkle_root(leaves.clone());
    // Sibling hashes, bottom level then top level, per leaf position.
    let l01 = hash_pair(&leaves[0], &leaves[1]);
    let l23 = hash_pair(&leaves[2], &leaves[3]);
    let proofs = [
        vec![leaves[1], l23],
        vec![leaves[0], l23],
        vec![leaves[3], l01],
        vec![leaves[2], l01],
    ];
    for (i, proof) in proofs.iter().enumerate() {
        assert!(
            verify_merkle_proof(leaves[i], proof.clone(), root, i),
            "proof for leaf {i} should verify"
        );
    }
}

#[test]
fn flipping_any_sibling_byte_breaks_the_proof() {
    let leaves: Vec<[u8; 64]> = (10u8..14).map(|i| [i; 64]).collect();
    let root = compute_merkle_root(leaves.clone());
    let l23 = hash_pair(&leaves[2], &leaves[3]);
    let proof = vec![leaves[1], l23];
    assert!(verify_merkle_proof(leaves[0], proof.clone(), root, 0));
    for sibling in 0..proof.len() {
        for byte in [0usize, 17, 63] {
            let mut tampered = proof.clone();
            tampered[sibling][byte] ^= 1;
            assert!(
                !verify_merkle_proof(leaves[0], tampered, root, 0),
                "tampered sibling {sibling} byte {byte} still verified"
            );
        }
    }
}

#[test]
fn wrong_index_fails_verification() {
    let a = [1u8; 64];
    let b = [2u8; 64];
    let root = compute_merkle_root(vec![a, b]);
    assert!(verify_merkle_proof(a, vec![b], root, 0));
    assert!(!verify_merkle_proof(a, vec![b], root, 1));
}

#[test]
fn verification_is_deterministic() {
    let a = [4u8; 64];
    let b = [5u8; 64];
    let root = compute_merkle_root(vec![a, b]);
    let first = verify_merkle_proof(a, vec![b], root, 0);
    let second = verify_merkle_proof(a, vec![b], root, 0);
    assert_eq!(first, second);
    let bad_first = verify_merkle_proof(b, vec![a], root, 0);
    let bad_second = verify_merkle_proof(b, vec![a], root, 0);
    assert_eq!(bad_first, bad_second);
}
