//! Transport errors.
use vstd::prelude::*;

verus! {

/// A failure of the scheduler or of an instruction channel.
#[derive(Debug, Clone, PartialEq, Eq)]
pub enum Error {
    /// The scheduler picked this index, which no agent has.
    SchedulerInvalidBounds(usize),
    /// The instruction for the named agent could not be sent.
    AgentTurnTxSendError(String),
    /// The named agent's acknowledgement could not be received.
    AgentTurnDoneRxRecvError(String),
}

} // verus!
