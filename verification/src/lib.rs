//! Shielded-transfer protocol core: commitments, nullifiers, a nullifier
//! accumulator with membership witnesses, proof gating, and the transfer
//! state machine that sequences them atomically.

pub mod accumulator;
pub mod commitments;
pub mod errors;
pub mod hashing;
pub mod nullifiers;
pub mod proofs;
pub mod state;
pub mod transfer;
pub mod validation;
