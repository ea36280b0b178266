//! A proxy that runs the code blocks it is given.
use vstd::prelude::*;

use crate::code_traits::UserCodeExecutor;

verus! {

/// What running one code block gave.
#[derive(Debug, Clone)]
pub enum ExecutionResponse {
    Success,
    ExecutionError(String),
}

/// Why the proxy did not run the code it was given.
#[derive(Debug, Clone)]
pub enum UserProxyAgentExecutorError {
    DeniedExecution(String),
}

/// A message to the proxy.
#[derive(Debug, Clone)]
pub enum Message {
    Text(String),
}

/// Collects code blocks and runs them, in the order received, with its
/// executor.
pub struct UserProxyAgentExecutor<X, C> {
    executor: X,
    code_blocks: Vec<C>,
}

impl<X: UserCodeExecutor<CodeBlock = C>, C> UserProxyAgentExecutor<X, C> {
    /// The blocks waiting to run.
    pub closed spec fn queued(&self) -> Seq<C> {
        self.code_blocks@
    }

    /// A proxy with nothing to run.
    pub fn new(executor: X) -> (r: Self)
        ensures
            r.queued() == Seq::<C>::empty(),
    {
        UserProxyAgentExecutor { executor, code_blocks: Vec::new() }
    }

    /// Queues `blocks` after those already waiting.
    pub fn receive(&mut self, blocks: Vec<C>)
        ensures
            final(self).queued() == old(self).queued() + blocks@,
    {
        let mut blocks = blocks;
        self.code_blocks.append(&mut blocks);
    }

    /// Runs every waiting block, in order, and returns one response for each.
    pub fn run_code(&mut self) -> (r: Vec<X::Response>)
        ensures
            r@.len() == old(self).queued().len(),
            final(self).queued() == Seq::<C>::empty(),
    {
        let mut responses: Vec<X::Response> = Vec::new();
        let ghost total = self.code_blocks@.len();
        while self.code_blocks.len() > 0
            invariant
                responses@.len() + self.code_blocks@.len() == total,
            decreases self.code_blocks@.len(),
        {
            let block = self.code_blocks.remove(0);
            responses.push(self.executor.execute_code_block(block));
        }
        assert(self.code_blocks@ =~= Seq::<C>::empty());
        responses
    }
}

} // verus!
