//! The transfer state machine: proof gate, double-spend check, accumulator
//! update and global-state update, sequenced so that any failure leaves the
//! persisted state exactly as it was.
//!
//! The one outside effect — the ledger moving the amount into its ephemeral
//! holding — sits between the checks and the state update. The host calls
//! `begin_private_transfer`, performs the move, and hands its outcome to
//! `settle_private_transfer`; `private_transfer` is the same run with the
//! ledger's verdict supplied up front.

use vstd::prelude::*;

use crate::accumulator::{insert_nullifier, spec_inserted_root, spec_proves_absent,
    spec_proves_present, MerkleWitness};
use crate::errors::ShroudError;
use crate::nullifiers::is_nullifier_in_set;
use crate::proofs::{proof_length_ok, public_inputs_ok, verify_transfer_proof};
use crate::state::{PrivacyState, TransferState, TransferStatus};

verus! {

/// What the checks of a transfer produced: the record in `Processing`, the
/// accumulator root that recording the nullifier will yield, and the amount
/// the ledger collaborator is to move before the transfer can settle.
pub struct PendingTransfer {
    pub record: TransferState,
    pub new_nullifier_root: [u8; 32],
    pub amount: u64,
}

/// Whether the pure gates pass: the proof meets the length gate and the
/// public inputs are well shaped.
pub open spec fn transfer_gate_ok(proof: Seq<u8>, commitment: Seq<u8>, nullifier: Seq<u8>) -> bool {
    proof_length_ok(proof) && public_inputs_ok(commitment, nullifier)
}

/// Whether a transfer request is admissible against the given state: the
/// gates pass, the nullifier is not already recorded, and the witness
/// proves its slot vacant under the current root.
pub open spec fn transfer_admissible(
    state: PrivacyState,
    proof: Seq<u8>,
    commitment: Seq<u8>,
    nullifier: Seq<u8>,
    witness: MerkleWitness,
) -> bool {
    &&& transfer_gate_ok(proof, commitment, nullifier)
    &&& !spec_proves_present(state.nullifier_root@, nullifier, witness)
    &&& spec_proves_absent(state.nullifier_root@, nullifier, witness)
}

/// Runs the checks of one transfer — proof gate, double-spend check,
/// accumulator insertion — without touching any state. On success the
/// record stands in `Processing` and the new root is computed but not yet
/// adopted; the caller owes the ledger move before settling.
pub fn begin_private_transfer(
    state: &PrivacyState,
    proof: &Vec<u8>,
    commitment: &[u8; 32],
    nullifier: &[u8; 32],
    witness: &MerkleWitness,
    amount: u64,
    now: i64,
) -> (r: Result<PendingTransfer, ShroudError>)
    ensures
        r is Ok <==> transfer_admissible(*state, proof@, commitment@, nullifier@, *witness),
        !proof_length_ok(proof@) ==> r is Err && r->Err_0 == ShroudError::InvalidProofLength,
        proof_length_ok(proof@) && !public_inputs_ok(commitment@, nullifier@) ==> r is Err
            && r->Err_0 == ShroudError::InvalidPublicInputs,
        transfer_gate_ok(proof@, commitment@, nullifier@) && spec_proves_present(
            state.nullifier_root@,
            nullifier@,
            *witness,
        ) ==> r is Err && r->Err_0 == ShroudError::NullifierAlreadySpent,
        transfer_gate_ok(proof@, commitment@, nullifier@) && !spec_proves_present(
            state.nullifier_root@,
            nullifier@,
            *witness,
        ) && !spec_proves_absent(state.nullifier_root@, nullifier@, *witness) ==> r is Err
            && r->Err_0 == ShroudError::InvalidMerkleProof,
        r is Ok ==> r->Ok_0.record == (TransferState {
            amount_commitment: *commitment,
            nullifier: *nullifier,
            timestamp: now,
            status: TransferStatus::Processing,
        }),
        r is Ok ==> r->Ok_0.new_nullifier_root@ == spec_inserted_root(nullifier@, *witness),
        r is Ok ==> r->Ok_0.amount == amount,
{
    if let Err(e) = verify_transfer_proof(proof, commitment, nullifier) {
        return Err(e);
    }
    if is_nullifier_in_set(&state.nullifier_root, nullifier, witness) {
        return Err(ShroudError::NullifierAlreadySpent);
    }
    let new_root = match insert_nullifier(&state.nullifier_root, nullifier, witness) {
        Ok(root) => root,
        Err(e) => {
            return Err(e);
        },
    };
    Ok(PendingTransfer {
        record: TransferState {
            amount_commitment: *commitment,
            nullifier: *nullifier,
            timestamp: now,
            status: TransferStatus::Processing,
        },
        new_nullifier_root: new_root,
        amount,
    })
}

/// Settles a begun transfer once the ledger collaborator has reported on
/// the move. If the move failed, the state is left untouched and the
/// failure surfaces as `InsufficientBalance`; if it succeeded, the new
/// root is adopted, the transfer count advances, and the record completes.
pub fn settle_private_transfer(
    state: &mut PrivacyState,
    pending: PendingTransfer,
    ledger_ok: bool,
    now: i64,
) -> (r: Result<TransferState, ShroudError>)
    requires
        old(state).transfer_count < u64::MAX,
    ensures
        !ledger_ok ==> r is Err && r->Err_0 == ShroudError::InsufficientBalance && *final(state)
            == *old(state),
        ledger_ok ==> r is Ok,
        ledger_ok ==> *final(state) == (PrivacyState {
            nullifier_root: pending.new_nullifier_root,
            transfer_count: (old(state).transfer_count + 1) as u64,
            last_update: now,
            ..*old(state)
        }),
        ledger_ok ==> r->Ok_0 == (TransferState {
            status: TransferStatus::Completed,
            ..pending.record
        }),
{
    if !ledger_ok {
        return Err(ShroudError::InsufficientBalance);
    }
    state.nullifier_root = pending.new_nullifier_root;
    state.transfer_count = state.transfer_count + 1;
    state.last_update = now;
    let record = TransferState { status: TransferStatus::Completed, ..pending.record };
    Ok(record)
}

/// One full state-machine run, with the ledger's verdict supplied as an
/// argument: all persisted effects apply exactly when every check passes
/// and the ledger moved the amount; on any failure the state is returned
/// unchanged and no record reaches `Processing` or `Completed`.
pub fn private_transfer(
    state: &mut PrivacyState,
    proof: &Vec<u8>,
    commitment: &[u8; 32],
    nullifier: &[u8; 32],
    witness: &MerkleWitness,
    amount: u64,
    ledger_ok: bool,
    now: i64,
) -> (r: Result<TransferState, ShroudError>)
    requires
        old(state).transfer_count < u64::MAX,
    ensures
        r is Err ==> *final(state) == *old(state),
        r is Ok <==> transfer_admissible(*old(state), proof@, commitment@, nullifier@, *witness)
            && ledger_ok,
        !proof_length_ok(proof@) ==> r is Err && r->Err_0 == ShroudError::InvalidProofLength,
        proof_length_ok(proof@) && !public_inputs_ok(commitment@, nullifier@) ==> r is Err
            && r->Err_0 == ShroudError::InvalidPublicInputs,
        transfer_gate_ok(proof@, commitment@, nullifier@) && spec_proves_present(
            old(state).nullifier_root@,
            nullifier@,
            *witness,
        ) ==> r is Err && r->Err_0 == ShroudError::NullifierAlreadySpent,
        transfer_gate_ok(proof@, commitment@, nullifier@) && !spec_proves_present(
            old(state).nullifier_root@,
            nullifier@,
            *witness,
        ) && !spec_proves_absent(old(state).nullifier_root@, nullifier@, *witness) ==> r is Err
            && r->Err_0 == ShroudError::InvalidMerkleProof,
        transfer_admissible(*old(state), proof@, commitment@, nullifier@, *witness) && !ledger_ok
            ==> r is Err && r->Err_0 == ShroudError::InsufficientBalance,
        r is Ok ==> final(state).nullifier_root@ == spec_inserted_root(nullifier@, *witness)
            && final(state).transfer_count == old(state).transfer_count + 1
            && final(state).last_update == now && final(state).authority == old(state).authority
            && final(state).merkle_root == old(state).merkle_root,
        r is Ok ==> r->Ok_0 == (TransferState {
            amount_commitment: *commitment,
            nullifier: *nullifier,
            timestamp: now,
            status: TransferStatus::Completed,
        }),
{
    let pending = match begin_private_transfer(state, proof, commitment, nullifier, witness, amount, now) {
        Ok(p) => p,
        Err(e) => {
            return Err(e);
        },
    };
    settle_private_transfer(state, pending, ledger_ok, now)
}

/// Double-spend exclusion: once the root recording a nullifier has been
/// adopted, no transfer reusing that nullifier with the witness that
/// recorded it is admissible — the witness now proves it present, so the
/// run ends in `NullifierAlreadySpent`.
pub proof fn lemma_double_spend_excluded(
    state: PrivacyState,
    proof: Seq<u8>,
    commitment: Seq<u8>,
    nullifier: Seq<u8>,
    witness: MerkleWitness,
)
    requires
        witness.wf(),
        state.nullifier_root@ == spec_inserted_root(nullifier, witness),
    ensures
        spec_proves_present(state.nullifier_root@, nullifier, witness),
        !transfer_admissible(state, proof, commitment, nullifier, witness),
{
}

} // verus!
