//! Commitments bind an amount and a blinding factor into an opaque 32-byte
//! value: the digest of the amount's little-endian bytes followed by the
//! blinding factor. The construction is binding up to digest collisions and
//! hides the amount from anyone without the blinding factor.

use vstd::prelude::*;

use crate::hashing::{blake3_digest, bytes32_eq, hash_bytes, push_bytes32};

verus! {

/// The byte stream a commitment digests: the amount in little-endian order,
/// then the 32 blinding bytes.
pub open spec fn commitment_preimage(amount: u64, blinding: Seq<u8>) -> Seq<u8> {
    vstd::bytes::spec_u64_to_le_bytes(amount) + blinding
}

/// The commitment to `(amount, blinding)`.
pub open spec fn spec_commitment(amount: u64, blinding: Seq<u8>) -> Seq<u8> {
    blake3_digest(commitment_preimage(amount, blinding))
}

/// Whether `c` opens to `(amount, blinding)`.
pub open spec fn spec_verify_commitment(c: Seq<u8>, amount: u64, blinding: Seq<u8>) -> bool {
    c == spec_commitment(amount, blinding)
}

/// Commits to an amount under a blinding factor.
pub fn create_commitment(amount: u64, blinding: &[u8; 32]) -> (c: [u8; 32])
    ensures
        c@ == spec_commitment(amount, blinding@),
{
    let mut data: Vec<u8> = vstd::bytes::u64_to_le_bytes(amount);
    push_bytes32(&mut data, blinding);
    hash_bytes(&data)
}

/// Checks that a commitment opens to the given amount and blinding factor.
pub fn verify_commitment(commitment: &[u8; 32], amount: u64, blinding: &[u8; 32]) -> (r: bool)
    ensures
        r == spec_verify_commitment(commitment@, amount, blinding@),
{
    let expected = create_commitment(amount, blinding);
    bytes32_eq(commitment, &expected)
}

/// A freshly created commitment always opens to the pair it was created
/// from: `verify(create(a, b), a, b)` holds for every amount and blinding.
pub proof fn lemma_create_commitment_verifies(amount: u64, blinding: Seq<u8>)
    ensures
        spec_verify_commitment(spec_commitment(amount, blinding), amount, blinding),
{
}

/// The byte-wise sum, modulo 256, of two 32-byte values.
pub open spec fn spec_add_commitments(c1: Seq<u8>, c2: Seq<u8>) -> Seq<u8> {
    Seq::new(32, |i: int| ((c1[i] + c2[i]) % 256) as u8)
}

/// Combines two commitments byte by byte, wrapping on overflow.
pub fn add_commitments(c1: &[u8; 32], c2: &[u8; 32]) -> (r: [u8; 32])
    ensures
        r@ == spec_add_commitments(c1@, c2@),
{
    let mut r: [u8; 32] = [0u8; 32];
    let mut i: usize = 0;
    while i < 32
        invariant
            0 <= i <= 32,
            forall|j: int| 0 <= j < i ==> r@[j] == ((c1@[j] + c2@[j]) % 256) as u8,
        decreases 32 - i,
    {
        r[i] = c1[i].wrapping_add(c2[i]);
        i = i + 1;
    }
    proof {
        assert(r@ =~= spec_add_commitments(c1@, c2@));
    }
    r
}

} // verus!
