//! The conversation between a user, a collaborative agent that writes code,
//! and an executor that runs the code the user approves.
use vstd::prelude::*;

pub mod chat_user_agent;
pub mod chat_user_agent_error;
pub mod code;
pub mod collaborative_agent;
pub mod collaborative_agent_error;
pub mod collaborative_chat;
pub mod collaborative_chat_error;

verus! {

} // verus!
