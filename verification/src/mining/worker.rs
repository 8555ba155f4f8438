//! The decisions of a mining worker: when work is stale, when a solution is
//! a share, and what share is submitted.
use vstd::prelude::*;
use vstd::bytes::{spec_u64_to_le_bytes, u64_to_le_bytes};
use crate::hexcode::{encode_job_id, hex_encode, hex_text, job_id_text};
use crate::stratum::message::StratumMessage;
use crate::stratum::protocol::RpcId;

verus! {

/// What a worker is told by the prover.
#[derive(Debug)]
pub enum WorkerEvent {
    /// A new proof target.
    NewTarget(u64),
    /// New work: (epoch number, epoch challenge, address).
    NewWork(u64, String, String),
    /// Stop, and answer on this channel once stopped.
    Exit(tokio::sync::oneshot::Sender<()>),
}

/// What came of one proving attempt.
#[derive(Debug, Clone, Copy, PartialEq, Eq, Structural)]
pub enum ProveStep {
    /// The work is for an epoch that is no longer current.
    Stale,
    /// The puzzle gave no solution.
    ProveFailed,
    /// The solution's difficulty is below the proof target.
    BelowTarget,
    /// The solution meets the target and is submitted as a share.
    Share,
}

/// Work for an epoch is stale once another epoch is current.
pub fn is_stale(epoch_number: u64, current_epoch: u64) -> (stale: bool)
    ensures
        stale == (epoch_number != current_epoch),
{
    epoch_number != current_epoch
}

/// The verdict on a solution found for an epoch: stale if the epoch is no
/// longer current, below target if its difficulty is less than the target,
/// else a share.
pub open spec fn spec_judge_solution(
    epoch_number: u64,
    current_epoch: u64,
    proof_difficulty: u64,
    proof_target: u64,
) -> ProveStep {
    if epoch_number != current_epoch {
        ProveStep::Stale
    } else if proof_difficulty < proof_target {
        ProveStep::BelowTarget
    } else {
        ProveStep::Share
    }
}

/// Judges a solution found for an epoch.
pub fn judge_solution(epoch_number: u64, current_epoch: u64, proof_difficulty: u64, proof_target: u64) -> (step:
    ProveStep)
    ensures
        step == spec_judge_solution(epoch_number, current_epoch, proof_difficulty, proof_target),
{
    if is_stale(epoch_number, current_epoch) {
        ProveStep::Stale
    } else if proof_difficulty < proof_target {
        ProveStep::BelowTarget
    } else {
        ProveStep::Share
    }
}

impl ProveStep {
    /// A proof is counted for every solution that was judged on its
    /// difficulty.
    pub fn counts_proof(&self) -> (counted: bool)
        ensures
            counted == (*self == ProveStep::BelowTarget || *self == ProveStep::Share),
    {
        match self {
            ProveStep::BelowTarget | ProveStep::Share => true,
            _ => false,
        }
    }

    /// The worker keeps proving the same work only after a solution below
    /// the target; every other step ends the work.
    pub fn ends_work(&self) -> (ends: bool)
        ensures
            ends == (*self != ProveStep::BelowTarget),
    {
        match self {
            ProveStep::BelowTarget => false,
            _ => true,
        }
    }
}

/// The share a worker submits for a solution: id 0, the miner's address,
/// the job id of the epoch, the nonce as the hexadecimal text of its eight
/// little-endian bytes, the commitment as hexadecimal text, and the
/// solution's text.
pub fn share_message(
    miner_address: String,
    epoch_number: u64,
    nonce: u64,
    commitment: &[u8],
    solution: String,
) -> (message: StratumMessage)
    ensures
        message matches StratumMessage::Submit(id, worker, job_id, nonce_text, commitment_text, proof)
            && id == RpcId::Num(0) && worker == miner_address && job_id@ == job_id_text(epoch_number)
            && nonce_text@ == hex_text(spec_u64_to_le_bytes(nonce)) && commitment_text@ == hex_text(
            commitment@,
        ) && proof == solution,
{
    let job_id = encode_job_id(epoch_number);
    let nonce_bytes = u64_to_le_bytes(nonce);
    let nonce_text = hex_encode(nonce_bytes.as_slice());
    let commitment_text = hex_encode(commitment);
    StratumMessage::Submit(RpcId::Num(0), miner_address, job_id, nonce_text, commitment_text, solution)
}

/// Work for an epoch that is no longer current is stale, whatever the
/// solution's difficulty and the target; only work for the current epoch is
/// judged on its difficulty, and it is a share exactly when its difficulty
/// reaches the target. Only a solution for the current epoch is counted as a
/// proof, and only one below the target keeps the worker on the same work.
pub proof fn law_stale_work_is_never_judged(
    epoch_number: u64,
    current_epoch: u64,
    proof_difficulty: u64,
    proof_target: u64,
)
    ensures
        epoch_number != current_epoch ==> spec_judge_solution(
            epoch_number,
            current_epoch,
            proof_difficulty,
            proof_target,
        ) == ProveStep::Stale,
        epoch_number == current_epoch ==> (spec_judge_solution(
            epoch_number,
            current_epoch,
            proof_difficulty,
            proof_target,
        ) == ProveStep::Share <==> proof_difficulty >= proof_target),
        epoch_number == current_epoch ==> spec_judge_solution(
            epoch_number,
            current_epoch,
            proof_difficulty,
            proof_target,
        ) != ProveStep::Stale,
        spec_judge_solution(epoch_number, current_epoch, proof_difficulty, proof_target) != ProveStep::ProveFailed,
        spec_judge_solution(epoch_number, current_epoch, proof_difficulty, proof_target) == ProveStep::BelowTarget
            ==> epoch_number == current_epoch && proof_difficulty < proof_target,
{
}

} // verus!
