use shroud_protocol::commitments::{add_commitments, create_commitment, verify_commitment};
use shroud_protocol::errors::ShroudError;
use shroud_protocol::nullifiers::{generate_nullifier, verify_nullifier};
use shroud_protocol::proofs::{
    generate_commitment, verify_proof, verify_transfer_proof, verify_zk_proof,
};
use shroud_protocol::validation::{validate_amount, validate_commitment, validate_nullifier};

#[test]
fn commitment_opens_to_its_inputs() {
    let blinding = [7u8; 32];
    let c = create_commitment(42, &blinding);
    assert!(verify_commitment(&c, 42, &blinding));
    assert!(!verify_commitment(&c, 43, &blinding));
    assert!(!verify_commitment(&c, 42, &[8u8; 32]));
}

#[test]
fn commitment_matches_outside_digest() {
    let blinding = [9u8; 32];
    let amount: u64 = 123_456_789;
    let c = create_commitment(amount, &blinding);
    let mut preimage = Vec::new();
    preimage.extend_from_slice(&amount.to_le_bytes());
    preimage.extend_from_slice(&blinding);
    assert_eq!(c, *blake3::hash(&preimage).as_bytes());
}

#[test]
fn distinct_inputs_give_distinct_commitments() {
    let b1 = [1u8; 32];
    let b2 = [2u8; 32];
    assert_ne!(create_commitment(1, &b1), create_commitment(2, &b1));
    assert_ne!(create_commitment(1, &b1), create_commitment(1, &b2));
}

#[test]
fn add_commitments_wraps_per_byte() {
    let c1 = [200u8; 32];
    let c2 = [100u8; 32];
    assert_eq!(add_commitments(&c1, &c2), [44u8; 32]);
    let c3 = [1u8; 32];
    let c4 = [2u8; 32];
    assert_eq!(add_commitments(&c3, &c4), [3u8; 32]);
}

#[test]
fn nullifier_is_deterministic_and_verifies() {
    let secret = [5u8; 32];
    let commitment = [6u8; 32];
    let n1 = generate_nullifier(&secret, &commitment);
    let n2 = generate_nullifier(&secret, &commitment);
    assert_eq!(n1, n2);
    assert!(verify_nullifier(&n1, &secret, &commitment));
    assert!(!verify_nullifier(&n1, &[0u8; 32], &commitment));
}

#[test]
fn distinct_inputs_give_distinct_nullifiers() {
    let c = [6u8; 32];
    let n1 = generate_nullifier(&[5u8; 32], &c);
    let n2 = generate_nullifier(&[7u8; 32], &c);
    let n3 = generate_nullifier(&[5u8; 32], &[8u8; 32]);
    assert_ne!(n1, n2);
    assert_ne!(n1, n3);
}

#[test]
fn nullifier_matches_outside_digest() {
    let secret = [3u8; 32];
    let commitment = [4u8; 32];
    let n = generate_nullifier(&secret, &commitment);
    let mut preimage = Vec::new();
    preimage.extend_from_slice(b"shroud-nullifier");
    preimage.extend_from_slice(&secret);
    preimage.extend_from_slice(&commitment);
    assert_eq!(n, *blake3::hash(&preimage).as_bytes());
}

#[test]
fn proof_length_boundary() {
    let commitment = [1u8; 32];
    let nullifier = [2u8; 32];
    let short = vec![0u8; 127];
    assert_eq!(
        verify_transfer_proof(&short, &commitment, &nullifier),
        Err(ShroudError::InvalidProofLength)
    );
    let exact = vec![0u8; 128];
    assert_eq!(verify_transfer_proof(&exact, &commitment, &nullifier), Ok(()));
}

#[test]
fn transfer_proof_rejects_zero_public_inputs() {
    let proof = vec![0u8; 128];
    assert_eq!(
        verify_transfer_proof(&proof, &[0u8; 32], &[2u8; 32]),
        Err(ShroudError::InvalidPublicInputs)
    );
    assert_eq!(
        verify_transfer_proof(&proof, &[1u8; 32], &[0u8; 32]),
        Err(ShroudError::InvalidPublicInputs)
    );
}

#[test]
fn zk_proof_gate_checks_both_blobs() {
    let empty: Vec<u8> = Vec::new();
    let blob = vec![1u8; 4];
    assert_eq!(verify_zk_proof(&empty, &blob), Err(ShroudError::InvalidProofLength));
    assert_eq!(verify_zk_proof(&blob, &empty), Err(ShroudError::InvalidPublicInputs));
    assert_eq!(verify_zk_proof(&blob, &blob), Ok(()));
}

#[test]
fn verify_proof_surfaces_each_error_verbatim() {
    let empty: Vec<u8> = Vec::new();
    let blob = vec![1u8; 4];
    assert_eq!(verify_proof(&empty, &blob), Err(ShroudError::InvalidProofLength));
    assert_eq!(verify_proof(&blob, &empty), Err(ShroudError::InvalidPublicInputs));
    assert_eq!(verify_proof(&blob, &blob), Ok(()));
}

#[test]
fn packed_commitment_layout() {
    let amount: u64 = 0x0807060504030201;
    let mut blinding = [0u8; 32];
    for (i, b) in blinding.iter_mut().enumerate() {
        *b = 100 + i as u8;
    }
    let c = generate_commitment(amount, &blinding);
    assert_eq!(&c[..8], &[1, 2, 3, 4, 5, 6, 7, 8]);
    assert_eq!(&c[8..], &blinding[..24]);
}

#[test]
fn amount_validation_bounds() {
    assert_eq!(validate_amount(0), Err(ShroudError::InvalidPublicInputs));
    assert_eq!(validate_amount(1), Ok(()));
    assert_eq!(validate_amount(u64::MAX / 2 - 1), Ok(()));
    assert_eq!(validate_amount(u64::MAX / 2), Err(ShroudError::InvalidPublicInputs));
}

#[test]
fn commitment_and_nullifier_validation() {
    assert_eq!(validate_commitment(&[0u8; 32]), Err(ShroudError::InvalidCommitment));
    assert_eq!(validate_commitment(&[1u8; 32]), Ok(()));
    assert_eq!(validate_nullifier(&[0u8; 32]), Err(ShroudError::InvalidPublicInputs));
    assert_eq!(validate_nullifier(&[1u8; 32]), Ok(()));
}
