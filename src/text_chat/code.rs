//! Code blocks and their execution.
use vstd::prelude::*;

verus! {

/// A block of code; its language is kept as written.
#[derive(Debug, Clone)]
pub struct CodeBlock {
    pub language: String,
    pub code: String,
}

/// What running a code block printed, on success or on failure.
#[derive(Debug, Clone)]
pub enum CodeBlockExecutionResult {
    Success(String),
    Failure(String),
}

/// Runs code blocks: on the local machine, a remote one, a container.
pub trait CodeExecutor {
    type Error;

    fn execute_code_block(&self, code_block: &CodeBlock) -> Result<CodeBlockExecutionResult, Self::Error>;
}

} // verus!
