//! A turn-based broadcast orchestrator for agents that take turns producing
//! messages, together with the agent interfaces and helper types around it.
use vstd::prelude::*;

pub mod agent_traits;
pub mod chat;
pub mod code_traits;
pub mod group_chat;
pub mod laws;
pub mod scheduler;
pub mod text_chat;
pub mod user_agent;

verus! {

} // verus!
