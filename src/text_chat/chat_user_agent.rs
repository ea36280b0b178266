//! How the collaborative chat talks to the user.
use vstd::prelude::*;

use super::code::{CodeBlock, CodeBlockExecutionResult};
use super::collaborative_agent::CollaborativeAgentResponse;

verus! {

/// The user's answer to a request to run a code block.
#[derive(Debug, Clone)]
pub enum CodeBlockFeedback {
    AllowExecution,
    DenyExecution { reason: String },
}

/// The user's side of the collaborative chat.
pub trait ChatUserAgent {
    type Error;

    /// Shows `message` from `sender` and returns the user's reply.
    fn receive_and_reply(&mut self, sender: String, message: String) -> Result<String, Self::Error>;

    /// Shows the collaborative agent's response, expecting no reply.
    fn silent_receive_collaborative_agent_response(
        &mut self,
        sender: String,
        response: CollaborativeAgentResponse,
    ) -> Result<(), Self::Error>;

    /// Asks whether `code_block` may run.
    fn request_code_block_feedback(
        &mut self,
        sender: String,
        comment: String,
        code_block: CodeBlock,
    ) -> Result<CodeBlockFeedback, Self::Error>;

    /// Shows what running a code block gave.
    fn receive_code_execution_result(&mut self, result: CodeBlockExecutionResult) -> Result<(), Self::Error>;
}

/// A message to the user.
#[derive(Debug, Clone)]
pub enum Message {
    Text { sender: String, message: String },
    CollaborativeAgentResponse { sender: String, response: CollaborativeAgentResponse },
    CodeBlockFeedback { sender: String, comment: String, code_block: CodeBlock },
    CodeBlockExecutionResult(CodeBlockExecutionResult),
}

} // verus!
