//! Errors of the orchestrator.
use vstd::prelude::*;

verus! {

/// Why a run of the orchestrator, or a registration, ended in failure.
#[derive(Debug)]
pub enum GroupChatTaskError<E> {
    /// Registration was attempted after the orchestrator terminated, or when
    /// no further index could be assigned.
    Registration,
    /// The producer of the round failed; the round was aborted.
    Producer { index: usize, error: E },
    /// The scheduler picked an index outside `[0, count)`.
    SchedulerContractViolation { index: usize, count: usize },
    /// Termination was forced while a round was in flight.
    Shutdown,
}

/// A consumer's failure during a round. It is collected and reported with the
/// round; it does not stop the run.
#[derive(Debug)]
pub struct ConsumerError<E> {
    pub index: usize,
    pub error: E,
}

} // verus!
