//! Properties of the round protocol, stated over the orchestrator's
//! transitions and proved.
use vstd::prelude::*;

use crate::group_chat::error::GroupChatTaskError;
use crate::group_chat::{after_full_round, lemma_remove_value_contains, recipients, GroupChatView, Turn};
use crate::scheduler::{RoundRobin, Scheduler};

verus! {

/// How the round boundary after `rounds` completed rounds turns out.
pub open spec fn turn_after_rounds<S: Scheduler, E>(v: GroupChatView<S, E>, rounds: nat) -> Turn<E>
    decreases rounds,
{
    if rounds == 0 {
        v.turn()
    } else {
        turn_after_rounds(after_full_round(v), (rounds - 1) as nat)
    }
}

/// With round-robin scheduling capped at `k` rounds and `n` agents, exactly
/// `k` rounds run: the producer of round `r` is agent `r mod n`, and the
/// boundary after round `k - 1` ends the run successfully.
pub proof fn lemma_round_robin_runs_cap_rounds<E>(v: GroupChatView<RoundRobin, E>, k: usize, r: nat)
    requires
        v.scheduler == RoundRobin::with_max_rounds_spec(k),
        v.agent_count > 0,
        !v.shutdown_requested,
        r <= k,
    ensures
        r < k ==> turn_after_rounds(v, r) == (Turn::<E>::Produce {
            producer: (r % (v.agent_count as nat)) as usize,
        }),
        r == k ==> turn_after_rounds(v, r) == (Turn::<E>::Finished { outcome: Ok(()) }),
{
    lemma_round_robin_from(v, k, 0, r);
}

proof fn lemma_round_robin_from<E>(v: GroupChatView<RoundRobin, E>, k: usize, done: nat, r: nat)
    requires
        v.scheduler == (RoundRobin { current_agent: done as usize, max_rounds: Some(k) }),
        v.agent_count > 0,
        !v.shutdown_requested,
        done + r <= k,
    ensures
        done + r < k ==> turn_after_rounds(v, r) == (Turn::<E>::Produce {
            producer: ((done + r) % (v.agent_count as nat)) as usize,
        }),
        done + r == k ==> turn_after_rounds(v, r) == (Turn::<E>::Finished { outcome: Ok(()) }),
    decreases r,
{
    let n = v.agent_count as nat;
    if r > 0 {
        let w = after_full_round(v);
        assert(done < k);
        assert((done as int) % (n as int) < n) by (nonlinear_arith)
            requires
                n > 0,
        ;
        assert(w.scheduler == RoundRobin { current_agent: (done + 1) as usize, max_rounds: Some(k) });
        lemma_round_robin_from(w, k, done + 1, (r - 1) as nat);
    } else if done < k {
        assert((done as int) % (n as int) < n) by (nonlinear_arith)
            requires
                n > 0,
        ;
    }
}

/// The message of a round goes to every other agent that takes part in the
/// round, once each, and never back to its producer.
pub proof fn lemma_recipients_are_the_others(participants: usize, producer: usize)
    requires
        producer < participants,
    ensures
        recipients(participants, producer).no_duplicates(),
        recipients(participants, producer).len() == participants - 1,
        !recipients(participants, producer).contains(producer),
        forall|i: usize|
            i < participants && i != producer <==> #[trigger] recipients(
                participants,
                producer,
            ).contains(i),
{
    let rs = recipients(participants, producer);
    assert forall|i: usize| i < participants && i != producer implies #[trigger] rs.contains(i) by {
        let j: int = if i < producer { i as int } else { i - 1 };
        assert(rs[j] == i);
    }
}

/// Once a round's message has been handed out, each consumer acknowledges
/// it at most once: the acknowledgement of `index` removes it, and only it,
/// from those awaited.
pub proof fn lemma_each_consumer_acknowledges_once<S, E>(
    v: GroupChatView<S, E>,
    index: usize,
    reply: Result<(), E>,
)
    requires
        v.wf(),
        v.round is Some,
        v.round.unwrap().produced,
        v.round.unwrap().pending.contains(index),
    ensures
        !v.after_ack(index, reply).round.unwrap().pending.contains(index),
        forall|j: usize|
            j != index ==> (#[trigger] v.after_ack(index, reply).round.unwrap().pending.contains(j)
                <==> v.round.unwrap().pending.contains(j)),
{
    lemma_remove_value_contains(v.round.unwrap().pending, index);
}

/// When the producer fails, no consumer is instructed: the round is dropped
/// with nothing handed out, and the run is over.
pub proof fn lemma_producer_failure_reaches_no_consumer<S, E, M>(v: GroupChatView<S, E>, error: E)
    requires
        v.wf(),
        v.round is Some,
        !v.round.unwrap().produced,
    ensures
        v.round.unwrap().pending.len() == 0,
        v.after_reply(Err::<M, E>(error)).round is None,
        v.after_reply(Err::<M, E>(error)).terminated,
{
}

/// A consumer's failure leaves every other consumer of the round as it was:
/// those still awaited are still awaited, the failure is recorded for the
/// round's report, and the run goes on.
pub proof fn lemma_consumer_failure_is_isolated<S, E>(v: GroupChatView<S, E>, index: usize, error: E)
    requires
        v.wf(),
        v.round is Some,
        v.round.unwrap().produced,
        v.round.unwrap().pending.contains(index),
    ensures
        ({
            let w = v.after_ack(index, Err(error));
            &&& w.wf()
            &&& !w.terminated
            &&& w.round.unwrap().producer == v.round.unwrap().producer
            &&& w.round.unwrap().participants == v.round.unwrap().participants
            &&& w.round.unwrap().errors == v.round.unwrap().errors.push(
                crate::group_chat::error::ConsumerError { index, error },
            )
            &&& forall|j: usize|
                j != index ==> (#[trigger] w.round.unwrap().pending.contains(j)
                    <==> v.round.unwrap().pending.contains(j))
        }),
{
    let p = v.round.unwrap().pending;
    lemma_remove_value_contains(p, index);
    p.index_of_first_ensures(index);
    let f = p.index_of_first(index).unwrap();
    p.remove_ensures(f);
    let q = p.remove(f);
    assert forall|a: int, b: int| 0 <= a < b < q.len() implies q[a] != q[b] by {
        let a0 = if a < f { a } else { a + 1 };
        let b0 = if b < f { b } else { b + 1 };
        assert(q[a] == p[a0]);
        assert(q[b] == p[b0]);
    }
    let r = v.round.unwrap();
    assert forall|k: int| 0 <= k < q.len() implies recipients(r.participants, r.producer).contains(
        #[trigger] q[k],
    ) by {
        let k0 = if k < f { k } else { k + 1 };
        assert(q[k] == p[k0]);
    }
}

/// An agent registered while a round is in flight does not take part in that
/// round; the next round counts it.
pub proof fn lemma_registration_waits_for_next_round<S: Scheduler, E>(v: GroupChatView<S, E>)
    requires
        v.wf(),
        v.round is Some,
        v.accepts_registration(),
    ensures
        v.after_registration().round == v.round,
        v.after_registration().agent_count == v.agent_count + 1,
        ({
            let next = GroupChatView { round: None, ..v.after_registration() }.after_turn();
            next.round is Some ==> next.round.unwrap().participants == v.agent_count + 1
        }),
{
}

/// Shutdown with no round in flight ends the run at once and fires the
/// cancellation signal; a second request fires nothing, and no later
/// registration is accepted.
pub proof fn lemma_shutdown_fires_once<S, E>(v: GroupChatView<S, E>, first: bool, second: bool)
    requires
        v.wf(),
        !v.terminated,
        v.round is None,
    ensures
        v.shutdown_outcome(first) == Some(Ok::<(), GroupChatTaskError<E>>(())),
        v.after_shutdown(first).terminated,
        v.after_shutdown(first).shutdown_outcome(second) is None,
        v.after_shutdown(first).after_shutdown(second) == v.after_shutdown(first),
        v.after_shutdown(first).registration() == Err::<usize, GroupChatTaskError<E>>(
            GroupChatTaskError::Registration,
        ),
{
}

} // verus!
