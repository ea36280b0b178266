//! The collaborative chat's participants and the choice of each next
//! exchange.
//!
//! The chat runs in exchanges. The system opens it; the user answers; the
//! collaborative agent answers the user. Each of the agent's answers decides
//! the next exchange: text goes to the user, whose reply goes back to the
//! agent; a code block goes to the user for review, and, where its author asks
//! for it to run, for approval. Approved code runs, and both the user and the
//! agent hear what it gave; refused code goes back to the agent with the
//! user's reason.
use vstd::prelude::*;

use super::chat_user_agent::CodeBlockFeedback;
use super::code::CodeBlock;
use super::collaborative_agent::CollaborativeAgentResponse;

verus! {

/// The system: it opens the conversation.
pub trait SystemAgent {
    fn initial_message(&self) -> String;
}

/// The exchange that follows one of the collaborative agent's answers.
#[derive(Debug, Clone)]
pub enum NextExchange {
    /// Show `message` to the user and pass the user's reply to the agent.
    AskUser { message: String },
    /// Show the code block to the user and ask whether it may run.
    ReviewCode { comment: String, code_block: CodeBlock },
}

/// What the user's answer to a review asks for.
#[derive(Debug, Clone)]
pub enum ReviewOutcome {
    /// Run the code block; the result goes to the user and to the agent.
    Execute { code_block: CodeBlock },
    /// Tell the agent that the code block was refused, and why.
    Deny { code_block: CodeBlock, reason: String },
}

/// The exchange that follows `response`. Text goes to the user. A code block
/// whose author asks for it to run goes to review; one that it does not ask
/// to run is shown to the user as its comment, and the user's reply goes
/// back to the agent.
pub fn next_exchange(response: CollaborativeAgentResponse) -> (r: NextExchange)
    ensures
        match response {
            CollaborativeAgentResponse::Text(text) => r == NextExchange::AskUser { message: text },
            CollaborativeAgentResponse::CommentedCodeBlock(c) => if c.request_execution {
                r == NextExchange::ReviewCode { comment: c.comment, code_block: c.code_block }
            } else {
                r == NextExchange::AskUser { message: c.comment }
            },
        },
{
    match response {
        CollaborativeAgentResponse::Text(text) => NextExchange::AskUser { message: text },
        CollaborativeAgentResponse::CommentedCodeBlock(c) => {
            if c.request_execution {
                NextExchange::ReviewCode { comment: c.comment, code_block: c.code_block }
            } else {
                NextExchange::AskUser { message: c.comment }
            }
        },
    }
}

/// What the user's `feedback` on `code_block` asks for.
pub fn review_outcome(code_block: CodeBlock, feedback: CodeBlockFeedback) -> (r: ReviewOutcome)
    ensures
        match feedback {
            CodeBlockFeedback::AllowExecution => r == ReviewOutcome::Execute { code_block },
            CodeBlockFeedback::DenyExecution { reason } => r == ReviewOutcome::Deny {
                code_block,
                reason,
            },
        },
{
    match feedback {
        CodeBlockFeedback::AllowExecution => ReviewOutcome::Execute { code_block },
        CodeBlockFeedback::DenyExecution { reason } => ReviewOutcome::Deny { code_block, reason },
    }
}

} // verus!
