//! The proof-verification gate. The proving system is pluggable and the
//! proof blob opaque: what is enforced here is the well-formedness layer —
//! the minimum proof length and the shape of the public inputs — and the
//! gate is pure, so a failed verification can have no side effect.

use vstd::prelude::*;

use crate::errors::ShroudError;
use crate::hashing::{bytes32_is_zero, zero_bytes32};

verus! {

/// The minimum length of a well-formed proof blob, in bytes.
pub const MIN_PROOF_LEN: usize = 128;

/// Whether a proof blob meets the length gate.
pub open spec fn proof_length_ok(proof: Seq<u8>) -> bool {
    proof.len() >= MIN_PROOF_LEN
}

/// Whether the public inputs of a transfer proof are well shaped: a
/// commitment and a nullifier that are not all zero.
pub open spec fn public_inputs_ok(commitment: Seq<u8>, nullifier: Seq<u8>) -> bool {
    commitment != zero_bytes32() && nullifier != zero_bytes32()
}

/// Validates a transfer proof against its public inputs: first the length
/// gate, then the shape of the public inputs. Each failure names its gate,
/// and a proof of at least the minimum length always passes the length
/// gate, whatever its contents.
pub fn verify_transfer_proof(proof: &Vec<u8>, commitment: &[u8; 32], nullifier: &[u8; 32]) -> (r:
    Result<(), ShroudError>)
    ensures
        r is Ok <==> proof_length_ok(proof@) && public_inputs_ok(commitment@, nullifier@),
        !proof_length_ok(proof@) ==> r is Err && r->Err_0 == ShroudError::InvalidProofLength,
        proof_length_ok(proof@) && !public_inputs_ok(commitment@, nullifier@) ==> r is Err
            && r->Err_0 == ShroudError::InvalidPublicInputs,
{
    if proof.len() < MIN_PROOF_LEN {
        return Err(ShroudError::InvalidProofLength);
    }
    if bytes32_is_zero(commitment) || bytes32_is_zero(nullifier) {
        return Err(ShroudError::InvalidPublicInputs);
    }
    Ok(())
}

/// Validates a general proof blob and its public inputs. An empty proof
/// fails the length gate; empty public inputs fail the shape gate.
pub fn verify_zk_proof(proof: &Vec<u8>, public_inputs: &Vec<u8>) -> (r: Result<(), ShroudError>)
    ensures
        r is Ok <==> proof@.len() > 0 && public_inputs@.len() > 0,
        proof@.len() == 0 ==> r is Err && r->Err_0 == ShroudError::InvalidProofLength,
        proof@.len() > 0 && public_inputs@.len() == 0 ==> r is Err && r->Err_0
            == ShroudError::InvalidPublicInputs,
{
    if proof.len() == 0 {
        return Err(ShroudError::InvalidProofLength);
    }
    if public_inputs.len() == 0 {
        return Err(ShroudError::InvalidPublicInputs);
    }
    Ok(())
}

/// Runs the general proof checks alone, with no state mutation. Each
/// rejection is surfaced verbatim, never downgraded to a generic failure.
pub fn verify_proof(proof: &Vec<u8>, public_inputs: &Vec<u8>) -> (r: Result<(), ShroudError>)
    ensures
        r is Ok <==> proof@.len() > 0 && public_inputs@.len() > 0,
        proof@.len() == 0 ==> r is Err && r->Err_0 == ShroudError::InvalidProofLength,
        proof@.len() > 0 && public_inputs@.len() == 0 ==> r is Err && r->Err_0
            == ShroudError::InvalidPublicInputs,
{
    verify_zk_proof(proof, public_inputs)
}

/// The packed commitment layout some provers consume: the amount in
/// little-endian order followed by the first 24 blinding bytes.
pub open spec fn spec_packed_commitment(amount: u64, blinding: Seq<u8>) -> Seq<u8> {
    vstd::bytes::spec_u64_to_le_bytes(amount) + blinding.subrange(0, 24)
}

/// Packs an amount and the head of its blinding factor into 32 bytes.
pub fn generate_commitment(amount: u64, blinding_factor: &[u8; 32]) -> (c: [u8; 32])
    ensures
        c@ == spec_packed_commitment(amount, blinding_factor@),
{
    let mut c: [u8; 32] = [0u8; 32];
    let le: Vec<u8> = vstd::bytes::u64_to_le_bytes(amount);
    let mut i: usize = 0;
    while i < 8
        invariant
            0 <= i <= 8,
            le@ == vstd::bytes::spec_u64_to_le_bytes(amount),
            le@.len() == 8,
            forall|j: int| 0 <= j < i ==> c@[j] == le@[j],
        decreases 8 - i,
    {
        c[i] = le[i];
        i = i + 1;
    }
    let mut k: usize = 0;
    while k < 24
        invariant
            0 <= k <= 24,
            le@ == vstd::bytes::spec_u64_to_le_bytes(amount),
            le@.len() == 8,
            forall|j: int| 0 <= j < 8 ==> c@[j] == le@[j],
            forall|j: int| 0 <= j < k ==> c@[8 + j] == blinding_factor@[j],
        decreases 24 - k,
    {
        c[8 + k] = blinding_factor[k];
        k = k + 1;
    }
    proof {
        assert(c@ =~= spec_packed_commitment(amount, blinding_factor@));
    }
    c
}

} // verus!
