//! Failures of the user's side of the chat.
use vstd::prelude::*;

verus! {

/// Why a `ChatUserAgent` call failed: the agent could not send or receive, or
/// a message could not be converted to or from the agent's own type.
#[derive(Debug)]
pub enum ChatUserAgentError<S, R> {
    Sending(S),
    Receiving(R),
    TryFromMessage,
    TryIntoString,
}

} // verus!
