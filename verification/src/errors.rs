//! Error taxonomy of the protocol. Every failure aborts the enclosing
//! transfer atomically and is surfaced verbatim to the caller.

use vstd::prelude::*;

verus! {

/// Reasons a protocol operation can fail.
#[derive(Clone, Copy, Debug, PartialEq, Eq, Structural)]
pub enum ShroudError {
    /// The zero-knowledge proof did not validate.
    InvalidProof,
    /// The proof blob is shorter than the minimum well-formed length.
    InvalidProofLength,
    /// The public inputs are empty or malformed.
    InvalidPublicInputs,
    /// The nullifier was already inserted into the accumulator.
    NullifierAlreadySpent,
    /// The commitment bytes are malformed.
    InvalidCommitment,
    /// The ledger collaborator reported that the transfer amount exceeds
    /// the sender's balance.
    InsufficientBalance,
    /// The ephemeral holding record is not in a state that can be released.
    InvalidEphemeralAccount,
    /// The membership witness does not correspond to the accumulator root.
    InvalidMerkleProof,
    /// The caller is not the recorded authority.
    Unauthorized,
}

} // verus!
