//! The agent that answers the user, possibly with code.
use vstd::prelude::*;

use super::code::{CodeBlock, CodeBlockExecutionResult};

verus! {

/// A code block with the text around it, and whether its author asks for it
/// to run.
#[derive(Debug, Clone)]
pub struct CommentedCodeBlock {
    pub comment: String,
    pub code_block: CodeBlock,
    pub request_execution: bool,
}

/// The agent answers with text or with a commented code block.
#[derive(Debug, Clone)]
pub enum CollaborativeAgentResponse {
    Text(String),
    CommentedCodeBlock(CommentedCodeBlock),
}

/// The agent that writes the code.
pub trait CollaborativeAgent {
    type Error;

    /// Takes `message` from `sender` and answers it.
    fn receive_and_reply(&mut self, sender: String, message: String) -> Result<CollaborativeAgentResponse, Self::Error>;

    /// Hears that the user refused to run `code_block`, and why, and answers.
    fn deny_code_block_execution(
        &mut self,
        code_block: CodeBlock,
        feedback: String,
    ) -> Result<CollaborativeAgentResponse, Self::Error>;

    /// Hears what running its code gave, and answers.
    fn receive_code_and_reply_to_execution_result(
        &mut self,
        code_execution_result: CodeBlockExecutionResult,
    ) -> Result<CollaborativeAgentResponse, Self::Error>;
}

/// A message to the collaborative agent.
#[derive(Debug, Clone)]
pub enum Message {
    Text { sender: String, message: String },
    CodeExecutionDenied { comment: String, code_block: CodeBlock },
    CodeExecutionResult(CodeBlockExecutionResult),
}

} // verus!
