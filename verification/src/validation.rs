//! Shape checks on caller-supplied values, usable before a transfer is
//! attempted. A malformed amount or nullifier is a malformed public input;
//! a malformed commitment has its own error.

use vstd::prelude::*;

use crate::errors::ShroudError;
use crate::hashing::{bytes32_is_zero, zero_bytes32};

verus! {

/// Checks that a transfer amount is positive and within the acceptable
/// range, strictly below half the `u64` domain.
pub fn validate_amount(amount: u64) -> (r: Result<(), ShroudError>)
    ensures
        r is Ok <==> 0 < amount < u64::MAX / 2,
        r is Err ==> r->Err_0 == ShroudError::InvalidPublicInputs,
{
    if amount == 0 {
        return Err(ShroudError::InvalidPublicInputs);
    }
    if amount >= u64::MAX / 2 {
        return Err(ShroudError::InvalidPublicInputs);
    }
    Ok(())
}

/// Checks that a commitment is not the all-zero value.
pub fn validate_commitment(commitment: &[u8; 32]) -> (r: Result<(), ShroudError>)
    ensures
        r is Ok <==> commitment@ != zero_bytes32(),
        r is Err ==> r->Err_0 == ShroudError::InvalidCommitment,
{
    if bytes32_is_zero(commitment) {
        return Err(ShroudError::InvalidCommitment);
    }
    Ok(())
}

/// Checks that a nullifier is not the all-zero value.
pub fn validate_nullifier(nullifier: &[u8; 32]) -> (r: Result<(), ShroudError>)
    ensures
        r is Ok <==> nullifier@ != zero_bytes32(),
        r is Err ==> r->Err_0 == ShroudError::InvalidPublicInputs,
{
    if bytes32_is_zero(nullifier) {
        return Err(ShroudError::InvalidPublicInputs);
    }
    Ok(())
}

} // verus!
