//! Policies that pick the next producer from the current number of agents.
use vstd::prelude::*;

verus! {

/// Picks, at each round boundary, the index of the next agent to produce.
///
/// The choice is a function of the scheduler's own state and the agent count
/// alone: `pick` names that choice and `advanced` the state that follows it.
pub trait Scheduler: Sized {
    spec fn pick(&self, agents_count: usize) -> Option<usize>;

    spec fn advanced(&self, agents_count: usize) -> Self;

    /// Returns the index of the next agent to take a turn, or `None` to stop.
    fn next_agent(&mut self, agents_count: usize) -> (r: Option<usize>)
        ensures
            r == old(self).pick(agents_count),
            *final(self) == old(self).advanced(agents_count),
    ;
}

/// Cycles through the agents in index order, optionally for a bounded number
/// of rounds.
pub struct RoundRobin {
    /// Number of rounds handed out so far.
    pub current_agent: usize,
    /// The round cap, if any.
    pub max_rounds: Option<usize>,
}

impl RoundRobin {
    pub open spec fn with_max_rounds_spec(max_rounds: usize) -> Self {
        RoundRobin { current_agent: 0, max_rounds: Some(max_rounds) }
    }

    /// A round-robin scheduler that stops after `max_rounds` rounds.
    pub fn with_max_rounds(max_rounds: usize) -> (r: Self)
        ensures
            r == Self::with_max_rounds_spec(max_rounds),
    {
        RoundRobin { current_agent: 0, max_rounds: Some(max_rounds) }
    }

    /// A round-robin scheduler without a round cap.
    pub fn unbounded() -> (r: Self)
        ensures
            r.current_agent == 0,
            r.max_rounds == None::<usize>,
    {
        RoundRobin { current_agent: 0, max_rounds: None }
    }
}

/// Whether a scheduler that has handed out `rounds` rounds under `cap` may
/// hand out another one to `agents_count` agents.
pub open spec fn round_robin_continues(rounds: nat, cap: Option<usize>, agents_count: usize) -> bool {
    &&& agents_count > 0
    &&& match cap {
        Some(k) => rounds < k,
        None => rounds < usize::MAX,
    }
}

impl Scheduler for RoundRobin {
    open spec fn pick(&self, agents_count: usize) -> Option<usize> {
        if round_robin_continues(self.current_agent as nat, self.max_rounds, agents_count) {
            Some((self.current_agent as nat % (agents_count as nat)) as usize)
        } else {
            None
        }
    }

    open spec fn advanced(&self, agents_count: usize) -> Self {
        if round_robin_continues(self.current_agent as nat, self.max_rounds, agents_count) {
            RoundRobin { current_agent: (self.current_agent + 1) as usize, max_rounds: self.max_rounds }
        } else {
            *self
        }
    }

    fn next_agent(&mut self, agents_count: usize) -> (r: Option<usize>) {
        if agents_count == 0 {
            return None;
        }
        let continues = match self.max_rounds {
            Some(k) => self.current_agent < k,
            None => self.current_agent < usize::MAX,
        };
        if !continues {
            return None;
        }
        let next = self.current_agent % agents_count;
        self.current_agent = self.current_agent + 1;
        Some(next)
    }
}

impl Default for RoundRobin {
    fn default() -> (r: Self)
        ensures
            r.current_agent == 0,
            r.max_rounds == None::<usize>,
    {
        RoundRobin::unbounded()
    }
}

/// Cycles through the agents in index order without end.
pub struct RoundRobinScheduler {
    /// Number of rounds handed out so far.
    pub current_agent: usize,
}

impl Scheduler for RoundRobinScheduler {
    open spec fn pick(&self, agents_count: usize) -> Option<usize> {
        if round_robin_continues(self.current_agent as nat, None, agents_count) {
            Some((self.current_agent as nat % (agents_count as nat)) as usize)
        } else {
            None
        }
    }

    open spec fn advanced(&self, agents_count: usize) -> Self {
        if round_robin_continues(self.current_agent as nat, None, agents_count) {
            RoundRobinScheduler { current_agent: (self.current_agent + 1) as usize }
        } else {
            *self
        }
    }

    fn next_agent(&mut self, agents_count: usize) -> (r: Option<usize>) {
        if agents_count == 0 || self.current_agent == usize::MAX {
            return None;
        }
        let next = self.current_agent % agents_count;
        self.current_agent = self.current_agent + 1;
        Some(next)
    }
}

impl Default for RoundRobinScheduler {
    fn default() -> (r: Self)
        ensures
            r.current_agent == 0,
    {
        RoundRobinScheduler { current_agent: 0 }
    }
}

} // verus!
