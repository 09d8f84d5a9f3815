//! Nullifiers: the unique per-spend tag derived from a spending secret and
//! a commitment. Each commitment can be spent once; the accumulator tracks
//! spent nullifiers by their root.

use vstd::prelude::*;

use crate::accumulator::{nullifier_is_member, spec_proves_present, MerkleWitness};
use crate::hashing::{blake3_digest, bytes32_eq, hash_bytes, push_bytes32};

verus! {

/// The domain-separation prefix of every nullifier digest, the ASCII bytes
/// of "shroud-nullifier". It keeps nullifiers from colliding with digests
/// derived for unrelated protocols.
pub open spec fn nullifier_domain_tag() -> Seq<u8> {
    seq![
        0x73u8,
        0x68u8,
        0x72u8,
        0x6fu8,
        0x75u8,
        0x64u8,
        0x2du8,
        0x6eu8,
        0x75u8,
        0x6cu8,
        0x6cu8,
        0x69u8,
        0x66u8,
        0x69u8,
        0x65u8,
        0x72u8,
    ]
}

/// The byte stream a nullifier digests: the domain tag, the secret, then
/// the commitment.
pub open spec fn nullifier_preimage(secret: Seq<u8>, commitment: Seq<u8>) -> Seq<u8> {
    nullifier_domain_tag() + secret + commitment
}

/// The nullifier derived from `(secret, commitment)`.
pub open spec fn spec_nullifier(secret: Seq<u8>, commitment: Seq<u8>) -> Seq<u8> {
    blake3_digest(nullifier_preimage(secret, commitment))
}

/// Whether `n` is the nullifier of `(secret, commitment)`.
pub open spec fn spec_verify_nullifier(n: Seq<u8>, secret: Seq<u8>, commitment: Seq<u8>) -> bool {
    n == spec_nullifier(secret, commitment)
}

/// Derives the nullifier of a commitment under a spending secret. The
/// result is a function of the two inputs alone, so repeated derivation
/// always yields the same nullifier.
pub fn generate_nullifier(secret: &[u8; 32], commitment: &[u8; 32]) -> (n: [u8; 32])
    ensures
        n@ == spec_nullifier(secret@, commitment@),
{
    let mut data: Vec<u8> = Vec::new();
    data.push(0x73u8);
    data.push(0x68u8);
    data.push(0x72u8);
    data.push(0x6fu8);
    data.push(0x75u8);
    data.push(0x64u8);
    data.push(0x2du8);
    data.push(0x6eu8);
    data.push(0x75u8);
    data.push(0x6cu8);
    data.push(0x6cu8);
    data.push(0x69u8);
    data.push(0x66u8);
    data.push(0x69u8);
    data.push(0x65u8);
    data.push(0x72u8);
    proof {
        assert(data@ =~= nullifier_domain_tag());
    }
    push_bytes32(&mut data, secret);
    push_bytes32(&mut data, commitment);
    proof {
        assert(data@ =~= nullifier_preimage(secret@, commitment@));
    }
    hash_bytes(&data)
}

/// Checks that a nullifier is correctly derived from the secret and
/// commitment.
pub fn verify_nullifier(nullifier: &[u8; 32], secret: &[u8; 32], commitment: &[u8; 32]) -> (r: bool)
    ensures
        r == spec_verify_nullifier(nullifier@, secret@, commitment@),
{
    let expected = generate_nullifier(secret, commitment);
    bytes32_eq(nullifier, &expected)
}

/// A freshly derived nullifier always passes the derivation check:
/// `verify(derive(s, c), s, c)` holds for every secret and commitment.
pub proof fn lemma_derived_nullifier_verifies(secret: Seq<u8>, commitment: Seq<u8>)
    ensures
        spec_verify_nullifier(spec_nullifier(secret, commitment), secret, commitment),
{
}

/// Checks whether a nullifier is recorded in the spent set summarized by
/// `nullifier_root`: true exactly when the witness proves its slot
/// occupied. A malformed witness never counts as a proof either way.
pub fn is_nullifier_in_set(nullifier_root: &[u8; 32], nullifier: &[u8; 32], witness: &MerkleWitness)
    -> (r: bool)
    ensures
        r == spec_proves_present(nullifier_root@, nullifier@, *witness),
{
    nullifier_is_member(nullifier_root, nullifier, witness)
}

} // verus!
