use shroud_protocol::accumulator::{
    empty_subtree_witness, empty_tree_root, insert_nullifier, nullifier_is_absent, MerkleWitness,
};
use shroud_protocol::errors::ShroudError;
use shroud_protocol::nullifiers::is_nullifier_in_set;
use shroud_protocol::state::{initialize, TransferStatus};
use shroud_protocol::transfer::{
    begin_private_transfer, private_transfer, settle_private_transfer,
};

#[test]
fn initialize_zeroes_the_aggregate() {
    let s = initialize([9u8; 32], 1234);
    assert_eq!(s.authority, [9u8; 32]);
    assert_eq!(s.merkle_root, [0u8; 32]);
    assert_eq!(s.nullifier_root, [0u8; 32]);
    assert_eq!(s.transfer_count, 0);
    assert_eq!(s.last_update, 1234);
}

#[test]
fn insert_then_member_under_new_root() {
    let root = [0u8; 32];
    let n = [42u8; 32];
    let w = empty_subtree_witness();
    assert!(!is_nullifier_in_set(&root, &n, &w));
    assert!(nullifier_is_absent(&root, &n, &w));
    let new_root = insert_nullifier(&root, &n, &w).expect("vacant slot accepts insertion");
    assert_ne!(new_root, root);
    assert!(is_nullifier_in_set(&new_root, &n, &w));
    assert!(!nullifier_is_absent(&new_root, &n, &w));
    assert_eq!(
        insert_nullifier(&new_root, &n, &w),
        Err(ShroudError::NullifierAlreadySpent)
    );
}

#[test]
fn malformed_witness_fails_closed() {
    let root = [0u8; 32];
    let n = [42u8; 32];
    let full = empty_subtree_witness();
    let mut truncated = full.siblings.clone();
    truncated.pop();
    let w = MerkleWitness { siblings: truncated };
    assert!(!is_nullifier_in_set(&root, &n, &w));
    assert!(!nullifier_is_absent(&root, &n, &w));
    assert_eq!(insert_nullifier(&root, &n, &w), Err(ShroudError::InvalidMerkleProof));
}

#[test]
fn mismatched_root_rejects_insertion() {
    let root = [9u8; 32];
    let n = [42u8; 32];
    let w = empty_subtree_witness();
    assert_eq!(insert_nullifier(&root, &n, &w), Err(ShroudError::InvalidMerkleProof));
}

#[test]
fn zero_root_stands_for_the_empty_tree() {
    let n = [42u8; 32];
    let w = empty_subtree_witness();
    let zero = [0u8; 32];
    let canonical = empty_tree_root();
    let from_zero = insert_nullifier(&zero, &n, &w).unwrap();
    let from_canonical = insert_nullifier(&canonical, &n, &w).unwrap();
    assert_eq!(from_zero, from_canonical);
}

#[test]
fn second_insertion_with_updated_witness() {
    // two nullifiers whose paths diverge at the leaf level
    let mut n1 = [0u8; 32];
    n1[0] = 42;
    let mut n2 = [0u8; 32];
    n2[0] = 43;
    let w = empty_subtree_witness();
    let root1 = insert_nullifier(&[0u8; 32], &n1, &w).unwrap();

    // under the new root, n2's witness sees n1's recorded leaf as its sibling
    let mut siblings = w.siblings.clone();
    let mut leaf1_preimage = vec![0u8];
    leaf1_preimage.extend_from_slice(&n1);
    siblings[0] = *blake3::hash(&leaf1_preimage).as_bytes();
    let w2 = MerkleWitness { siblings };

    assert!(nullifier_is_absent(&root1, &n2, &w2));
    assert!(!is_nullifier_in_set(&root1, &n2, &w2));
    let root2 = insert_nullifier(&root1, &n2, &w2).unwrap();
    assert!(is_nullifier_in_set(&root2, &n2, &w2));

    // the first nullifier stays present, by its witness updated the same way
    let mut siblings1 = w.siblings.clone();
    let mut leaf2_preimage = vec![0u8];
    leaf2_preimage.extend_from_slice(&n2);
    siblings1[0] = *blake3::hash(&leaf2_preimage).as_bytes();
    let w1u = MerkleWitness { siblings: siblings1 };
    assert!(is_nullifier_in_set(&root2, &n1, &w1u));
    assert_eq!(insert_nullifier(&root2, &n1, &w1u), Err(ShroudError::NullifierAlreadySpent));
}

#[test]
fn transfer_end_to_end_and_double_spend_rejected() {
    let mut state = initialize([9u8; 32], 1000);
    let proof = vec![1u8; 128];
    let commitment = [3u8; 32];
    let nullifier = [4u8; 32];
    let w = empty_subtree_witness();

    let record = private_transfer(
        &mut state, &proof, &commitment, &nullifier, &w, 100, true, 1001,
    )
    .expect("well-formed transfer completes");
    assert_eq!(record.status, TransferStatus::Completed);
    assert_eq!(record.amount_commitment, commitment);
    assert_eq!(record.nullifier, nullifier);
    assert_eq!(record.timestamp, 1001);
    assert_eq!(state.transfer_count, 1);
    assert_eq!(state.last_update, 1001);
    assert_ne!(state.nullifier_root, [0u8; 32]);

    let again = private_transfer(
        &mut state, &proof, &commitment, &nullifier, &w, 100, true, 1002,
    );
    assert_eq!(again, Err(ShroudError::NullifierAlreadySpent));
    assert_eq!(state.transfer_count, 1);
    assert_eq!(state.last_update, 1001);
}

#[test]
fn failed_proof_leaves_state_untouched() {
    let mut state = initialize([9u8; 32], 1000);
    let before = state;
    let short_proof = vec![1u8; 127];
    let w = empty_subtree_witness();
    let r = private_transfer(
        &mut state, &short_proof, &[3u8; 32], &[4u8; 32], &w, 100, true, 1001,
    );
    assert_eq!(r, Err(ShroudError::InvalidProofLength));
    assert_eq!(state, before);
}

#[test]
fn failed_ledger_move_leaves_state_untouched() {
    let mut state = initialize([9u8; 32], 1000);
    let before = state;
    let proof = vec![1u8; 128];
    let w = empty_subtree_witness();
    let r = private_transfer(
        &mut state, &proof, &[3u8; 32], &[4u8; 32], &w, 100, false, 1001,
    );
    assert_eq!(r, Err(ShroudError::InsufficientBalance));
    assert_eq!(state, before);
}

#[test]
fn staged_run_matches_one_shot() {
    let mut state = initialize([9u8; 32], 1000);
    let proof = vec![1u8; 128];
    let commitment = [3u8; 32];
    let nullifier = [4u8; 32];
    let w = empty_subtree_witness();

    let pending = begin_private_transfer(
        &state, &proof, &commitment, &nullifier, &w, 100, 1001,
    )
    .expect("checks pass");
    assert_eq!(pending.record.status, TransferStatus::Processing);
    assert_eq!(pending.amount, 100);
    assert_eq!(state.transfer_count, 0, "begin touches no state");

    let record = settle_private_transfer(&mut state, pending, true, 1001).unwrap();
    assert_eq!(record.status, TransferStatus::Completed);
    assert_eq!(state.transfer_count, 1);

    let mut other = initialize([9u8; 32], 1000);
    let one_shot = private_transfer(
        &mut other, &proof, &commitment, &nullifier, &w, 100, true, 1001,
    )
    .unwrap();
    assert_eq!(one_shot, record);
    assert_eq!(other, state);
}

#[test]
fn ledger_failure_in_settlement_leaves_state_untouched() {
    let mut state = initialize([9u8; 32], 1000);
    let before = state;
    let proof = vec![1u8; 128];
    let w = empty_subtree_witness();
    let pending =
        begin_private_transfer(&state, &proof, &[3u8; 32], &[4u8; 32], &w, 100, 1001).unwrap();
    let r = settle_private_transfer(&mut state, pending, false, 1001);
    assert_eq!(r, Err(ShroudError::InsufficientBalance));
    assert_eq!(state, before);
}
