//! The decisions of the prover: how it hands work to its workers and share
//! verdicts to the statistics.
use vstd::prelude::*;
use crate::aleo::{aleo_address_valid, is_aleo_address};
use crate::mining::ProverEvent;
use crate::mining::stats::StatsEvent;
use crate::mining::worker::WorkerEvent;

verus! {

/// What the prover does with an event.
#[derive(Debug)]
pub enum ProverPlan {
    /// Hand these events to the workers, the i-th to the i-th worker, in
    /// order, stopping at the first worker that cannot take one.
    Dispatch(Vec<WorkerEvent>),
    /// Hand this event to the statistics.
    Stats(StatsEvent),
    /// The event is not one the prover acts on.
    Unexpected,
}

/// Why the prover could not start.
#[derive(Debug, Clone, Copy, PartialEq, Eq, Structural)]
pub enum ProverError {
    /// The miner's address is not an Aleo address.
    InvalidAddress,
    /// No miner was asked for.
    NoMiner,
}

/// The prover's worker-facing side.
pub struct Prover;

/// Every event of `events` is new work for `epoch` with this challenge and
/// address.
pub open spec fn all_new_work(events: Seq<WorkerEvent>, epoch: u64, challenge: Seq<char>, address: Seq<
    char,
>) -> bool {
    forall|i: int|
        0 <= i < events.len() ==> (#[trigger] events[i] matches WorkerEvent::NewWork(e, c, a) && e
            == epoch && c@ == challenge && a@ == address)
}

impl Prover {
    /// Plans what the prover does with an event: new work goes to each of
    /// the `workers` workers, a share verdict to the statistics, anything
    /// else is unexpected.
    pub fn process_msg(msg: ProverEvent, workers: usize) -> (plan: ProverPlan)
        ensures
            match msg {
                ProverEvent::NewWork(epoch, challenge, address) => plan matches ProverPlan::Dispatch(
                    events,
                ) && events@.len() == workers && all_new_work(events@, epoch, challenge@, address@),
                ProverEvent::SubmitResult(valid, message) => plan matches ProverPlan::Stats(
                    StatsEvent::SubmitResult(v, m),
                ) && v == valid && m == message,
                _ => plan matches ProverPlan::Unexpected,
            },
    {
        match msg {
            ProverEvent::NewWork(epoch_number, epoch_challenge, address) => {
                let mut events: Vec<WorkerEvent> = Vec::new();
                let mut i: usize = 0;
                while i < workers
                    invariant
                        i <= workers,
                        events@.len() == i,
                        all_new_work(events@, epoch_number, epoch_challenge@, address@),
                    decreases workers - i,
                {
                    events.push(WorkerEvent::NewWork(epoch_number, epoch_challenge.clone(), address.clone()));
                    i = i + 1;
                }
                ProverPlan::Dispatch(events)
            },
            ProverEvent::SubmitResult(valid, message) => ProverPlan::Stats(StatsEvent::SubmitResult(valid, message)),
            _ => ProverPlan::Unexpected,
        }
    }

    /// Checks the miner's address before the prover starts: it must read as
    /// an Aleo address.
    pub fn check_address(address: &str) -> (res: Result<(), ProverError>)
        ensures
            res is Ok <==> aleo_address_valid(address@),
            res is Err ==> res == Err::<(), ProverError>(ProverError::InvalidAddress),
    {
        if is_aleo_address(address) {
            Ok(())
        } else {
            Err(ProverError::InvalidAddress)
        }
    }
}

} // verus!
