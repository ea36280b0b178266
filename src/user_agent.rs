//! Agents that stand for a user.
use vstd::prelude::*;

pub mod user_proxy_agent_executor;

verus! {

/// A user that takes in messages and replies.
pub trait UserAgent {
    type Mrx;
    type Mtx;
    type SendingError;
    type ReceivingError;

    fn receive_message(&self, mrx: Self::Mrx) -> Result<(), Self::ReceivingError>;

    fn send_message(&self) -> Result<Self::Mtx, Self::SendingError>;
}

/// Why a receive-then-reply exchange failed.
#[derive(Debug)]
pub enum RespondingAgentError<S, R> {
    Sending(S),
    Receiving(R),
}

} // verus!
