//! The prover, its workers and the share statistics.
use vstd::prelude::*;

pub mod stats;
pub mod worker;
pub mod prover;

verus! {

#[verifier::external_type_specification]
#[verifier::external_body]
#[verifier::reject_recursive_types(T)]
pub struct ExOneshotSender<T>(tokio::sync::oneshot::Sender<T>);

/// What the prover is told by the stratum handler and by its manager.
#[derive(Debug)]
pub enum ProverEvent {
    /// A new proof target.
    NewTarget(u64),
    /// New work: (epoch number, epoch challenge, address).
    NewWork(u64, String, String),
    /// The pool's verdict on a submitted share, with its message if any.
    SubmitResult(bool, Option<String>),
    /// Stop, and answer on this channel once stopped.
    Exit(tokio::sync::oneshot::Sender<()>),
}

} // verus!
