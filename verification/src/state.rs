//! Persisted protocol state: the global privacy aggregate, owned by the
//! protocol authority and mutated only by transfer completions, and the
//! per-transfer record with its monotone lifecycle.

use vstd::prelude::*;

use crate::hashing::zero_bytes32;

verus! {

/// The lifecycle of one transfer record. It advances monotonically from
/// `Pending` to a terminal `Completed` or `Failed` and never reverts.
#[derive(Clone, Copy, Debug, PartialEq, Eq, Structural)]
pub enum TransferStatus {
    Pending,
    Processing,
    Completed,
    Failed,
}

/// Per-transfer record: what one shielded transfer committed to, its
/// nullifier, when it was initiated, and how far it has advanced.
#[derive(Clone, Copy, Debug, PartialEq, Eq)]
pub struct TransferState {
    /// Commitment to the transfer amount.
    pub amount_commitment: [u8; 32],
    /// Nullifier preventing a second spend of the same commitment.
    pub nullifier: [u8; 32],
    /// Timestamp of transfer initiation.
    pub timestamp: i64,
    /// Current lifecycle stage.
    pub status: TransferStatus,
}

/// The global privacy aggregate, a single logical instance per deployment.
#[derive(Clone, Copy, Debug, PartialEq, Eq)]
pub struct PrivacyState {
    /// The authority recorded at initialization.
    pub authority: [u8; 32],
    /// Root of the commitment tree.
    pub merkle_root: [u8; 32],
    /// Root of the spent-nullifier accumulator; grows only by insertion.
    pub nullifier_root: [u8; 32],
    /// Number of transfers completed so far.
    pub transfer_count: u64,
    /// Timestamp of the last mutation.
    pub last_update: i64,
}

/// Creates the singleton privacy state: zeroed roots, zero transfer count,
/// and the caller recorded as authority.
pub fn initialize(authority: [u8; 32], now: i64) -> (s: PrivacyState)
    ensures
        s.authority == authority,
        s.merkle_root@ == zero_bytes32(),
        s.nullifier_root@ == zero_bytes32(),
        s.transfer_count == 0,
        s.last_update == now,
{
    let zero: [u8; 32] = [0u8; 32];
    proof {
        assert(zero@ =~= zero_bytes32());
    }
    PrivacyState {
        authority,
        merkle_root: zero,
        nullifier_root: zero,
        transfer_count: 0,
        last_update: now,
    }
}

} // verus!
