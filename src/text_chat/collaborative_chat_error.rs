//! Failures of the collaborative chat.
use vstd::prelude::*;

verus! {

/// Which participant of the collaborative chat failed, with its error.
#[derive(Debug)]
pub enum CollaborativeChatError<U, C, X> {
    ChatUserAgent(U),
    CollaborativeAgent(C),
    CodeExecutor(X),
}

} // verus!
