//! Failures of the collaborative agent.
use vstd::prelude::*;

verus! {

/// Why a `CollaborativeAgent` call failed: the agent could not send or
/// receive, or a message could not be converted to or from its own type.
#[derive(Debug)]
pub enum CollaborativeAgentError<S, R> {
    Sending(S),
    Receiving(R),
    TryFromMessage,
    TryIntoString,
}

} // verus!
