//! The orchestrator: agent registration, round sequencing and shutdown.
//!
//! `GroupChat` owns the registry (a count of agents, indexed from zero) and
//! the scheduler, and decides every step of the round protocol. A driver runs
//! the agents: it performs what each step asks (an instruction to one agent,
//! a fan-out to several) and feeds the agents' replies back.
use vstd::prelude::*;

pub mod error;

use self::error::{ConsumerError, GroupChatTaskError};
use crate::agent_traits::{ConsumerAgent, ProducerAgent};
use crate::scheduler::Scheduler;

verus! {

/// How the next round starts, or how the run ended.
#[derive(Debug)]
pub enum Turn<E> {
    /// Instruct this agent to produce the round's message.
    Produce { producer: usize },
    /// The run is over: the cancellation signal fires with this outcome.
    Finished { outcome: Result<(), GroupChatTaskError<E>> },
}

/// What follows the producer's reply.
#[derive(Debug)]
pub enum Fanout<M, E> {
    /// Instruct each of `recipients` to consume `message`.
    Deliver { message: M, recipients: Vec<usize> },
    /// The producer failed: the round is aborted and the run is over.
    Finished { outcome: Result<(), GroupChatTaskError<E>> },
}

/// A completed round: its producer and the consumers that failed in it.
#[derive(Debug)]
pub struct RoundReport<E> {
    pub producer: usize,
    pub consumer_errors: Vec<ConsumerError<E>>,
}

/// How a round played in turn ended.
#[derive(Debug)]
pub enum RoundOutcome<E> {
    /// The round ran to completion; the run goes on.
    Completed(RoundReport<E>),
    /// The run is over, with this outcome.
    Finished(Result<(), GroupChatTaskError<E>>),
}

/// The round in flight, as seen by contracts.
pub struct RoundView<E> {
    /// The agent that produces the round's message.
    pub producer: usize,
    /// The number of agents registered when the round started.
    pub participants: usize,
    /// Whether the producer's message has been received.
    pub produced: bool,
    /// The consumers whose acknowledgement is still awaited.
    pub pending: Seq<usize>,
    /// The consumer failures collected so far.
    pub errors: Seq<ConsumerError<E>>,
}

/// The orchestrator, as seen by contracts.
pub struct GroupChatView<S, E> {
    pub scheduler: S,
    pub agent_count: usize,
    pub round: Option<RoundView<E>>,
    pub shutdown_requested: bool,
    pub terminated: bool,
}

/// The agents that receive the message of `producer` when `participants`
/// agents take part: every other index below `participants`, in order.
pub open spec fn recipients(participants: usize, producer: usize) -> Seq<usize> {
    Seq::new(
        (participants - 1) as nat,
        |j: int|
            if j < producer {
                j as usize
            } else {
                (j + 1) as usize
            },
    )
}

impl<S, E> GroupChatView<S, E> {
    /// A terminated orchestrator has no round in flight; a round's producer
    /// and recipients are registered agents; each awaited consumer is a
    /// recipient, awaited once; nothing is awaited before the message exists.
    pub open spec fn wf(self) -> bool {
        &&& self.terminated ==> self.round is None
        &&& match self.round {
            Some(r) => {
                &&& r.producer < r.participants <= self.agent_count
                &&& r.pending.no_duplicates()
                &&& forall|k: int|
                    0 <= k < r.pending.len() ==> recipients(r.participants, r.producer).contains(
                        #[trigger] r.pending[k],
                    )
                &&& !r.produced ==> r.pending.len() == 0 && r.errors.len() == 0
            },
            None => true,
        }
    }

    /// Whether a registration can be accepted.
    pub open spec fn accepts_registration(self) -> bool {
        !self.terminated && self.agent_count < usize::MAX
    }

    /// The state once a registration has been asked for.
    pub open spec fn after_registration(self) -> Self {
        if self.accepts_registration() {
            GroupChatView { agent_count: (self.agent_count + 1) as usize, ..self }
        } else {
            self
        }
    }

    /// The answer to a registration: the new agent's index, or a refusal.
    pub open spec fn registration(self) -> Result<usize, GroupChatTaskError<E>> {
        if self.accepts_registration() {
            Ok(self.agent_count)
        } else {
            Err(GroupChatTaskError::Registration)
        }
    }

    /// The state once the producer has replied with `reply`.
    pub open spec fn after_reply<M>(self, reply: Result<M, E>) -> Self {
        let r = self.round.unwrap();
        match reply {
            Ok(_) => GroupChatView {
                round: Some(
                    RoundView {
                        produced: true,
                        pending: recipients(r.participants, r.producer),
                        ..r
                    },
                ),
                ..self
            },
            Err(_) => GroupChatView { round: None, terminated: true, ..self },
        }
    }

    /// The state once consumer `index` has acknowledged with `reply`.
    pub open spec fn after_ack(self, index: usize, reply: Result<(), E>) -> Self {
        let r = self.round.unwrap();
        let errors = match reply {
            Ok(_) => r.errors,
            Err(e) => r.errors.push(ConsumerError { index, error: e }),
        };
        GroupChatView {
            round: Some(RoundView { pending: r.pending.remove_value(index), errors, ..r }),
            ..self
        }
    }

    /// Whether the round in flight has its message and every acknowledgement.
    pub open spec fn round_settled(self) -> bool {
        &&& self.round is Some
        &&& self.round.unwrap().produced
        &&& self.round.unwrap().pending.len() == 0
    }

    /// The state once a shutdown has been asked for.
    pub open spec fn after_shutdown(self, forced: bool) -> Self {
        if self.terminated {
            self
        } else if self.round is None || forced {
            GroupChatView { round: None, terminated: true, ..self }
        } else {
            GroupChatView { shutdown_requested: true, ..self }
        }
    }

    /// The outcome that the cancellation signal fires with, when a shutdown
    /// request makes it fire.
    pub open spec fn shutdown_outcome(self, forced: bool) -> Option<Result<(), GroupChatTaskError<E>>> {
        if self.terminated {
            None
        } else if self.round is None {
            Some(Ok(()))
        } else if forced {
            Some(Err(GroupChatTaskError::Shutdown))
        } else {
            None
        }
    }
}

impl<S: Scheduler, E> GroupChatView<S, E> {
    /// The state once the next round has been asked for.
    pub open spec fn after_turn(self) -> Self {
        if self.shutdown_requested {
            GroupChatView { terminated: true, ..self }
        } else {
            let next = self.scheduler.advanced(self.agent_count);
            match self.scheduler.pick(self.agent_count) {
                Some(p) => if p < self.agent_count {
                    GroupChatView {
                        scheduler: next,
                        round: Some(
                            RoundView {
                                producer: p,
                                participants: self.agent_count,
                                produced: false,
                                pending: Seq::empty(),
                                errors: Seq::empty(),
                            },
                        ),
                        ..self
                    }
                } else {
                    GroupChatView { scheduler: next, terminated: true, ..self }
                },
                None => GroupChatView { scheduler: next, terminated: true, ..self },
            }
        }
    }

    /// How the next round starts, or how the run ends.
    pub open spec fn turn(self) -> Turn<E> {
        if self.shutdown_requested {
            Turn::Finished { outcome: Ok(()) }
        } else {
            match self.scheduler.pick(self.agent_count) {
                Some(p) => if p < self.agent_count {
                    Turn::Produce { producer: p }
                } else {
                    Turn::Finished {
                        outcome: Err(
                            GroupChatTaskError::SchedulerContractViolation {
                                index: p,
                                count: self.agent_count,
                            },
                        ),
                    }
                },
                None => Turn::Finished { outcome: Ok(()) },
            }
        }
    }
}

/// The state once the next round has started and then run to completion:
/// the producer's reply, the consumers' acknowledgements and the completion
/// change only the round in flight, and completion clears it.
pub open spec fn after_full_round<S: Scheduler, E>(v: GroupChatView<S, E>) -> GroupChatView<S, E> {
    GroupChatView { round: None, ..v.after_turn() }
}

/// The round in flight.
struct Round<E> {
    producer: usize,
    participants: usize,
    produced: bool,
    pending: Vec<usize>,
    errors: Vec<ConsumerError<E>>,
}

impl<E> View for Round<E> {
    type V = RoundView<E>;

    closed spec fn view(&self) -> RoundView<E> {
        RoundView {
            producer: self.producer,
            participants: self.participants,
            produced: self.produced,
            pending: self.pending@,
            errors: self.errors@,
        }
    }
}

/// The turn-based broadcast orchestrator.
pub struct GroupChat<S, E> {
    scheduler: S,
    agent_count: usize,
    round: Option<Round<E>>,
    shutdown_requested: bool,
    terminated: bool,
}

impl<S, E> View for GroupChat<S, E> {
    type V = GroupChatView<S, E>;

    closed spec fn view(&self) -> GroupChatView<S, E> {
        GroupChatView {
            scheduler: self.scheduler,
            agent_count: self.agent_count,
            round: match self.round {
                Some(r) => Some(r@),
                None => None,
            },
            shutdown_requested: self.shutdown_requested,
            terminated: self.terminated,
        }
    }
}

impl<S: Scheduler, E> GroupChat<S, E> {
    /// An orchestrator with no agents, accepting registrations.
    pub fn new(scheduler: S) -> (r: Self)
        ensures
            r@ == (GroupChatView::<S, E> {
                scheduler,
                agent_count: 0,
                round: None,
                shutdown_requested: false,
                terminated: false,
            }),
            r@.wf(),
    {
        GroupChat { scheduler, agent_count: 0, round: None, shutdown_requested: false, terminated: false }
    }

    /// Registers one agent and returns its index: the number of agents
    /// registered before it. A round in flight keeps its participants; the new
    /// agent takes part from the next round on.
    pub fn add_agent(&mut self) -> (r: Result<usize, GroupChatTaskError<E>>)
        requires
            old(self)@.wf(),
        ensures
            final(self)@ == old(self)@.after_registration(),
            r == old(self)@.registration(),
            final(self)@.wf(),
    {
        if self.terminated || self.agent_count == usize::MAX {
            return Err(GroupChatTaskError::Registration);
        }
        let index = self.agent_count;
        self.agent_count = self.agent_count + 1;
        Ok(index)
    }

    /// The number of registered agents.
    pub fn agent_count(&self) -> (r: usize)
        ensures
            r == self@.agent_count,
    {
        self.agent_count
    }

    /// Whether the run is over.
    pub fn is_terminated(&self) -> (r: bool)
        ensures
            r == self@.terminated,
    {
        self.terminated
    }

    /// Whether a round is in flight.
    pub fn round_in_flight(&self) -> (r: bool)
        ensures
            r == self@.round is Some,
    {
        self.round.is_some()
    }

    /// Whether the round in flight awaits the producer's reply.
    pub fn awaits_producer(&self) -> (r: bool)
        ensures
            r == (self@.round is Some && !self@.round.unwrap().produced),
    {
        match &self.round {
            Some(round) => !round.produced,
            None => false,
        }
    }

    /// Whether the round in flight awaits the acknowledgement of `index`.
    pub fn awaits_consumer(&self, index: usize) -> (r: bool)
        ensures
            r == (self@.round is Some && self@.round.unwrap().pending.contains(index)),
    {
        match &self.round {
            Some(round) => contains_index(&round.pending, index),
            None => false,
        }
    }

    /// Whether the round in flight has its message and every acknowledgement.
    pub fn round_settled(&self) -> (r: bool)
        ensures
            r == self@.round_settled(),
    {
        match &self.round {
            Some(round) => round.produced && round.pending.len() == 0,
            None => false,
        }
    }

    /// Starts the next round: asks the scheduler for its producer, with the
    /// number of agents registered now. Ends the run instead where shutdown
    /// was requested, where the scheduler stops, or where it picks an index
    /// that no agent has.
    pub fn begin_round(&mut self) -> (r: Turn<E>)
        requires
            old(self)@.wf(),
            !old(self)@.terminated,
            old(self)@.round is None,
        ensures
            final(self)@ == old(self)@.after_turn(),
            r == old(self)@.turn(),
            final(self)@.wf(),
    {
        if self.shutdown_requested {
            self.terminated = true;
            return Turn::Finished { outcome: Ok(()) };
        }
        let count = self.agent_count;
        match self.scheduler.next_agent(count) {
            Some(p) => {
                if p < count {
                    self.round = Some(
                        Round {
                            producer: p,
                            participants: count,
                            produced: false,
                            pending: Vec::new(),
                            errors: Vec::new(),
                        },
                    );
                    proof {
                        assert(self@.round.unwrap().pending =~= Seq::<usize>::empty());
                        assert(self@.round.unwrap().errors =~= Seq::<ConsumerError<E>>::empty());
                    }
                    Turn::Produce { producer: p }
                } else {
                    self.terminated = true;
                    Turn::Finished {
                        outcome: Err(
                            GroupChatTaskError::SchedulerContractViolation { index: p, count },
                        ),
                    }
                }
            },
            None => {
                self.terminated = true;
                Turn::Finished { outcome: Ok(()) }
            },
        }
    }
    /// Takes the producer's reply. On success, every other agent that takes
    /// part in the round is to consume the message, each once; on failure the
    /// round is aborted, no consumer is instructed, and the run ends with the
    /// producer's error.
    pub fn on_produced<M>(&mut self, reply: Result<M, E>) -> (r: Fanout<M, E>)
        requires
            old(self)@.wf(),
            old(self)@.round is Some,
            !old(self)@.round.unwrap().produced,
        ensures
            final(self)@ == old(self)@.after_reply(reply),
            final(self)@.wf(),
            match reply {
                Ok(m) => match r {
                    Fanout::Deliver { message, recipients: rs } => message == m && rs@ == recipients(
                        old(self)@.round.unwrap().participants,
                        old(self)@.round.unwrap().producer,
                    ),
                    Fanout::Finished { .. } => false,
                },
                Err(e) => r == Fanout::<M, E>::Finished {
                    outcome: Err(
                        GroupChatTaskError::Producer {
                            index: old(self)@.round.unwrap().producer,
                            error: e,
                        },
                    ),
                },
            },
    {
        let round = self.round.take().unwrap();
        let producer = round.producer;
        let participants = round.participants;
        match reply {
            Ok(message) => {
                self.round = Some(
                    Round {
                        producer,
                        participants,
                        produced: true,
                        pending: recipients_of(participants, producer),
                        errors: round.errors,
                    },
                );
                proof {
                    let rs = recipients(participants, producer);
                    assert(rs.no_duplicates());
                    assert forall|k: int| 0 <= k < rs.len() implies rs.contains(#[trigger] rs[k]) by {}
                }
                Fanout::Deliver { message, recipients: recipients_of(participants, producer) }
            },
            Err(error) => {
                self.terminated = true;
                Fanout::Finished { outcome: Err(GroupChatTaskError::Producer { index: producer, error }) }
            },
        }
    }

    /// Takes the acknowledgement of consumer `index`. A failure is collected
    /// for the round's report; the other consumers are not affected.
    pub fn on_consumed(&mut self, index: usize, reply: Result<(), E>)
        requires
            old(self)@.wf(),
            old(self)@.round is Some,
            old(self)@.round.unwrap().produced,
            old(self)@.round.unwrap().pending.contains(index),
        ensures
            final(self)@ == old(self)@.after_ack(index, reply),
            final(self)@.wf(),
            !final(self)@.round.unwrap().pending.contains(index),
            forall|j: usize|
                j != index ==> (#[trigger] final(self)@.round.unwrap().pending.contains(j)
                    <==> old(self)@.round.unwrap().pending.contains(j)),
            final(self)@.round.unwrap().pending.len() == old(self)@.round.unwrap().pending.len() - 1,
    {
        let mut round = self.round.take().unwrap();
        let ghost old_pending = round.pending@;
        let n = round.pending.len();
        let mut j: usize = 0;
        while round.pending[j] != index
            invariant
                round.pending@ == old_pending,
                n == old_pending.len(),
                old_pending.contains(index),
                j < old_pending.len(),
                forall|k: int| 0 <= k < j ==> old_pending[k] != index,
            decreases old_pending.len() - j,
        {
            j = j + 1;
            proof {
                if j == old_pending.len() {
                    let w = choose|w: int| 0 <= w < old_pending.len() && old_pending[w] == index;
                    assert(old_pending[w] == index);
                }
            }
        }
        proof {
            lemma_remove_value_contains(old_pending, index);
            old_pending.index_of_first_ensures(index);
            let f = old_pending.index_of_first(index).unwrap();
            assert(f == j as int);
            old_pending.remove_ensures(j as int);
        }
        round.pending.remove(j);
        match reply {
            Ok(()) => {},
            Err(error) => {
                round.errors.push(ConsumerError { index, error });
            },
        }
        self.round = Some(round);
        proof {
            let p = self@.round.unwrap().pending;
            assert(p == old_pending.remove(j as int));
            assert forall|a: int, b: int| 0 <= a < b < p.len() implies p[a] != p[b] by {
                let a0 = if a < j { a } else { a + 1 };
                let b0 = if b < j { b } else { b + 1 };
                assert(p[a] == old_pending[a0]);
                assert(p[b] == old_pending[b0]);
            }
            assert forall|k: int| 0 <= k < p.len() implies recipients(
                round.participants,
                round.producer,
            ).contains(#[trigger] p[k]) by {
                let k0 = if k < j { k } else { k + 1 };
                assert(p[k] == old_pending[k0]);
            }
        }
    }

    /// Completes the round in flight, once every consumer has acknowledged.
    pub fn complete_round(&mut self) -> (r: RoundReport<E>)
        requires
            old(self)@.wf(),
            old(self)@.round_settled(),
        ensures
            final(self)@ == (GroupChatView { round: None, ..old(self)@ }),
            final(self)@.wf(),
            r.producer == old(self)@.round.unwrap().producer,
            r.consumer_errors@ == old(self)@.round.unwrap().errors,
    {
        let round = self.round.take().unwrap();
        RoundReport { producer: round.producer, consumer_errors: round.errors }
    }

    /// Plays the next round with `agents`, indexed as registered, one agent
    /// at a time: the producer, then each recipient in index order, each with
    /// its own copy of the message. Every recipient is called, whatever the
    /// others replied.
    pub fn play_round<M: Clone, A>(&mut self, agents: &mut Vec<A>) -> (r: RoundOutcome<E>)
        where
            A: ProducerAgent<Mtx = M, Error = E> + ConsumerAgent<Mrx = M, Error = E>,
        requires
            old(self)@.wf(),
            !old(self)@.terminated,
            old(self)@.round is None,
            old(agents)@.len() == old(self)@.agent_count,
        ensures
            final(self)@.wf(),
            final(self)@.round is None,
            final(agents)@.len() == old(agents)@.len(),
            final(self)@.agent_count == old(self)@.agent_count,
            final(self)@.scheduler == old(self)@.after_turn().scheduler,
            final(self)@.shutdown_requested == old(self)@.shutdown_requested,
            match old(self)@.turn() {
                Turn::Finished { outcome } => r == RoundOutcome::Finished(outcome)
                    && final(self)@ == old(self)@.after_turn(),
                Turn::Produce { producer } => match r {
                    RoundOutcome::Completed(report) => report.producer == producer
                        && final(self)@ == after_full_round(old(self)@),
                    RoundOutcome::Finished(outcome) => final(self)@.terminated && match outcome {
                        Err(GroupChatTaskError::Producer { index, .. }) => index == producer,
                        _ => false,
                    },
                },
            },
    {
        let producer = match self.begin_round() {
            Turn::Finished { outcome } => {
                return RoundOutcome::Finished(outcome);
            },
            Turn::Produce { producer } => producer,
        };
        let reply = agents[producer].send_message();
        let (message, rs) = match self.on_produced(reply) {
            Fanout::Finished { outcome } => {
                return RoundOutcome::Finished(outcome);
            },
            Fanout::Deliver { message, recipients: rs } => (message, rs),
        };
        let ghost start = self@;
        let ghost count = self@.agent_count;
        proof {
            let all = recipients(count, producer);
            assert(all.no_duplicates());
            assert forall|j: usize| #[trigger] self@.round.unwrap().pending.contains(j) <==> rs@.subrange(0, rs@.len() as int).contains(j) by {
                assert(rs@.subrange(0, rs@.len() as int) =~= rs@);
            }
        }
        let mut k: usize = 0;
        while k < rs.len()
            invariant
                self@.wf(),
                !self@.terminated,
                self@.round is Some,
                self@.round.unwrap().produced,
                self@.round.unwrap().producer == producer,
                self@.round.unwrap().participants == count,
                self@.agent_count == count,
                self@.scheduler == start.scheduler,
                self@.shutdown_requested == start.shutdown_requested,
                producer < count,
                rs@ == recipients(count, producer),
                rs@.no_duplicates(),
                k <= rs@.len(),
                agents@.len() == count,
                self@.round.unwrap().pending.len() == rs@.len() - k,
                forall|j: usize| #[trigger] self@.round.unwrap().pending.contains(j) <==> rs@.subrange(k as int, rs@.len() as int).contains(j),
            decreases rs@.len() - k,
        {
            let i = rs[k];
            proof {
                assert(rs@.subrange(k as int, rs@.len() as int)[0] == i);
                assert(i < count);
            }
            let ack = agents[i].receive_message(message.clone());
            let ghost before = self@;
            self.on_consumed(i, ack);
            proof {
                let rest = rs@.subrange(k as int, rs@.len() as int);
                let next = rs@.subrange(k + 1, rs@.len() as int);
                assert forall|j: usize| #[trigger] self@.round.unwrap().pending.contains(j) <==> next.contains(j) by {
                    if next.contains(j) {
                        let w = choose|w: int| 0 <= w < next.len() && next[w] == j;
                        assert(rest[w + 1] == j);
                        assert(next[w] == rs@[k as int + 1 + w]);
                        assert(rs@[k as int] == i);
                        assert(j != i);
                    }
                    if rest.contains(j) && j != i {
                        let w = choose|w: int| 0 <= w < rest.len() && rest[w] == j;
                        assert(w != 0);
                        assert(next[w - 1] == j);
                    }
                }
            }
            k = k + 1;
        }
        RoundOutcome::Completed(self.complete_round())
    }

    /// Asks the run to stop. With no round in flight the run ends at once;
    /// with one in flight it ends when the round completes, or at once, with
    /// a shutdown error, where `forced` is set. The cancellation signal fires
    /// where the result is `Some`; after that, never again.
    pub fn shutdown(&mut self, forced: bool) -> (r: Option<Result<(), GroupChatTaskError<E>>>)
        requires
            old(self)@.wf(),
        ensures
            final(self)@ == old(self)@.after_shutdown(forced),
            r == old(self)@.shutdown_outcome(forced),
            final(self)@.wf(),
    {
        if self.terminated {
            None
        } else if self.round.is_none() {
            self.terminated = true;
            Some(Ok(()))
        } else if forced {
            self.round = None;
            self.terminated = true;
            Some(Err(GroupChatTaskError::Shutdown))
        } else {
            self.shutdown_requested = true;
            None
        }
    }
}

/// Removing the first occurrence of `x` from a sequence without duplicates
/// removes `x` and nothing else.
pub proof fn lemma_remove_value_contains(s: Seq<usize>, x: usize)
    requires
        s.no_duplicates(),
        s.contains(x),
    ensures
        !s.remove_value(x).contains(x),
        forall|j: usize| j != x ==> (#[trigger] s.remove_value(x).contains(j) <==> s.contains(j)),
        s.remove_value(x).len() == s.len() - 1,
{
    s.index_of_first_ensures(x);
    let f = s.index_of_first(x).unwrap();
    s.remove_ensures(f);
    let t = s.remove_value(x);
    assert(t == s.remove(f));
    if t.contains(x) {
        let w = choose|w: int| 0 <= w < t.len() && t[w] == x;
        let w0 = if w < f { w } else { w + 1 };
        assert(s[w0] == s[f]);
    }
    assert forall|j: usize| j != x implies (#[trigger] t.contains(j) <==> s.contains(j)) by {
        if t.contains(j) {
            let w = choose|w: int| 0 <= w < t.len() && t[w] == j;
            let w0 = if w < f { w } else { w + 1 };
            assert(s[w0] == j);
        }
        if s.contains(j) {
            let w = choose|w: int| 0 <= w < s.len() && s[w] == j;
            assert(w != f);
            let w1 = if w < f { w } else { w - 1 };
            assert(t[w1] == j);
        }
    }
}

/// Whether `v` holds `x`.
fn contains_index(v: &Vec<usize>, x: usize) -> (r: bool)
    ensures
        r == v@.contains(x),
{
    let mut j: usize = 0;
    while j < v.len()
        invariant
            j <= v@.len(),
            forall|k: int| 0 <= k < j ==> v@[k] != x,
        decreases v@.len() - j,
    {
        if v[j] == x {
            assert(v@[j as int] == x);
            return true;
        }
        j = j + 1;
    }
    false
}

/// Every index below `participants` but `producer`, in order.
fn recipients_of(participants: usize, producer: usize) -> (r: Vec<usize>)
    requires
        producer < participants,
    ensures
        r@ == recipients(participants, producer),
{
    let mut r: Vec<usize> = Vec::new();
    let mut i: usize = 0;
    while i < participants
        invariant
            producer < participants,
            i <= participants,
            r@ =~= Seq::new(
                if i <= producer { i as nat } else { (i - 1) as nat },
                |j: int|
                    if j < producer {
                        j as usize
                    } else {
                        (j + 1) as usize
                    },
            ),
        decreases participants - i,
    {
        if i != producer {
            r.push(i);
        }
        i = i + 1;
    }
    assert(r@ =~= recipients(participants, producer));
    r
}

} // verus!
