//! Extraction of code from messages, and execution of the extracted code.
use vstd::prelude::*;

pub mod fenced_code_block_extractor;

verus! {

/// Finds the code blocks that a message holds.
pub trait CodeExtractor<M> {
    type CodeBlock;

    fn extract_code_blocks(&self, message: M) -> Vec<Self::CodeBlock>;
}

/// Runs one code block and reports what came of it.
pub trait UserCodeExecutor {
    type CodeBlock;
    type Response;

    fn execute_code_block(&self, code_block: Self::CodeBlock) -> Self::Response;
}

} // verus!
