use autogen::group_chat::error::GroupChatTaskError;
use autogen::agent_traits::{ConsumerAgent, ProducerAgent};
use autogen::group_chat::{Fanout, GroupChat, RoundOutcome, RoundReport, Turn};
use autogen::scheduler::{RoundRobin, Scheduler};

/// An agent whose message is its name, and which may fail chosen calls.
struct TestAgent {
    name: &'static str,
    fail_produce_on_call: Option<usize>,
    fail_consume_on_call: Option<usize>,
    produce_calls: usize,
    consume_calls: usize,
    received: Vec<&'static str>,
}

impl TestAgent {
    fn new(name: &'static str) -> TestAgent {
        TestAgent {
            name,
            fail_produce_on_call: None,
            fail_consume_on_call: None,
            produce_calls: 0,
            consume_calls: 0,
            received: Vec::new(),
        }
    }
}

impl ProducerAgent for TestAgent {
    type Mtx = &'static str;
    type Error = String;

    fn send_message(&mut self) -> Result<&'static str, String> {
        let call = self.produce_calls;
        self.produce_calls += 1;
        if self.fail_produce_on_call == Some(call) {
            Err(format!("{} failed to produce", self.name))
        } else {
            Ok(self.name)
        }
    }
}

impl ConsumerAgent for TestAgent {
    type Mrx = &'static str;
    type Error = String;

    fn receive_message(&mut self, mrx: &'static str) -> Result<(), String> {
        let call = self.consume_calls;
        self.consume_calls += 1;
        if self.fail_consume_on_call == Some(call) {
            Err(format!("{} failed to consume", self.name))
        } else {
            self.received.push(mrx);
            Ok(())
        }
    }
}

struct Outcome {
    result: Result<(), GroupChatTaskError<String>>,
    reports: Vec<RoundReport<String>>,
}

impl Outcome {
    fn producers(&self) -> Vec<usize> {
        self.reports.iter().map(|r| r.producer).collect()
    }
}

/// Plays rounds until the run ends.
fn run<S: Scheduler>(chat: &mut GroupChat<S, String>, agents: &mut Vec<TestAgent>) -> Outcome {
    let mut reports = Vec::new();
    loop {
        match chat.play_round(agents) {
            RoundOutcome::Completed(report) => reports.push(report),
            RoundOutcome::Finished(result) => return Outcome { result, reports },
        }
    }
}

fn three_agents() -> Vec<TestAgent> {
    vec![TestAgent::new("A"), TestAgent::new("B"), TestAgent::new("C")]
}

fn register_all(chat: &mut GroupChat<RoundRobin, String>, agents: &[TestAgent]) {
    for (i, _) in agents.iter().enumerate() {
        assert_eq!(chat.add_agent().ok(), Some(i));
    }
}

#[test]
fn three_agents_take_three_rounds_in_turn() {
    let mut chat = GroupChat::new(RoundRobin::with_max_rounds(3));
    let mut agents = three_agents();
    register_all(&mut chat, &agents);
    let outcome = run(&mut chat, &mut agents);
    assert!(outcome.result.is_ok());
    assert_eq!(outcome.producers(), vec![0, 1, 2]);
    assert!(outcome.reports.iter().all(|r| r.consumer_errors.is_empty()));
    assert_eq!(agents[0].received, vec!["B", "C"]);
    assert_eq!(agents[1].received, vec!["A", "C"]);
    assert_eq!(agents[2].received, vec!["A", "B"]);
    assert!(chat.is_terminated());
}

#[test]
fn producer_failure_stops_the_run() {
    let mut chat = GroupChat::new(RoundRobin::with_max_rounds(3));
    let mut agents = three_agents();
    agents[1].fail_produce_on_call = Some(0);
    register_all(&mut chat, &agents);
    let outcome = run(&mut chat, &mut agents);
    match &outcome.result {
        Err(GroupChatTaskError::Producer { index, error }) => {
            let index = *index;
            assert_eq!(index, 1);
            assert_eq!(error, "B failed to produce");
        }
        _ => panic!("expected a producer error"),
    }
    assert_eq!(outcome.producers(), vec![0]);
    assert_eq!(agents[2].produce_calls, 0);
    assert_eq!(agents[0].received, Vec::<&str>::new());
    assert_eq!(agents[1].received, vec!["A"]);
    assert_eq!(agents[2].received, vec!["A"]);
    assert!(chat.is_terminated());
}

#[test]
fn group_chat_test_chat() {
    let mut chat = GroupChat::new(RoundRobin::with_max_rounds(3));
    let mut agents = vec![TestAgent::new("phrase1"), TestAgent::new("phrase2"), TestAgent::new("phrase3")];
    register_all(&mut chat, &agents);
    let outcome = run(&mut chat, &mut agents);
    assert!(outcome.result.is_ok());
    let expected = [vec!["phrase2", "phrase3"], vec!["phrase1", "phrase3"], vec!["phrase1", "phrase2"]];
    let done = agents.iter().zip(expected.iter()).filter(|(a, e)| &a.received == *e).count();
    assert_eq!(done, 3);
}

#[test]
fn consumer_failure_is_reported_and_others_still_receive() {
    let mut chat = GroupChat::new(RoundRobin::with_max_rounds(3));
    let mut agents = three_agents();
    agents[1].fail_consume_on_call = Some(0);
    register_all(&mut chat, &agents);
    let outcome = run(&mut chat, &mut agents);
    assert!(outcome.result.is_ok());
    assert_eq!(outcome.producers(), vec![0, 1, 2]);
    assert_eq!(outcome.reports[0].producer, 0);
    assert_eq!(outcome.reports[0].consumer_errors.len(), 1);
    assert_eq!(outcome.reports[0].consumer_errors[0].index, 1);
    assert_eq!(outcome.reports[0].consumer_errors[0].error, "B failed to consume");
    assert!(outcome.reports[1].consumer_errors.is_empty());
    assert_eq!(agents[1].received, vec!["C"]);
    assert_eq!(agents[2].received, vec!["A", "B"]);
}

#[test]
fn round_robin_cycles_modulo_the_count() {
    let mut chat = GroupChat::new(RoundRobin::with_max_rounds(7));
    let mut agents = vec![TestAgent::new("x"), TestAgent::new("y")];
    for _ in 0..2 {
        chat.add_agent().unwrap();
    }
    let outcome = run(&mut chat, &mut agents);
    assert!(outcome.result.is_ok());
    assert_eq!(outcome.producers(), vec![0, 1, 0, 1, 0, 1, 0]);
    assert_eq!(outcome.reports.len(), 7);
}

#[test]
fn a_cap_of_zero_runs_no_round() {
    let mut chat = GroupChat::new(RoundRobin::with_max_rounds(0));
    let mut agents = three_agents();
    register_all(&mut chat, &agents);
    let outcome = run(&mut chat, &mut agents);
    assert!(outcome.result.is_ok());
    assert!(outcome.producers().is_empty());
}

#[test]
fn a_single_agent_rounds_reach_no_one() {
    let mut chat = GroupChat::new(RoundRobin::with_max_rounds(2));
    let mut agents = vec![TestAgent::new("solo")];
    chat.add_agent().unwrap();
    let outcome = run(&mut chat, &mut agents);
    assert!(outcome.result.is_ok());
    assert_eq!(outcome.producers(), vec![0, 0]);
    assert!(agents[0].received.is_empty());
}

#[test]
fn no_agents_means_no_rounds() {
    let mut chat: GroupChat<RoundRobin, String> = GroupChat::new(RoundRobin::with_max_rounds(3));
    match chat.begin_round() {
        Turn::Finished { outcome } => assert!(outcome.is_ok()),
        Turn::Produce { .. } => panic!("no agent can produce"),
    }
}

#[test]
fn registration_during_a_round_waits_for_the_next_one() {
    let mut chat: GroupChat<RoundRobin, String> = GroupChat::new(RoundRobin::with_max_rounds(3));
    chat.add_agent().unwrap();
    chat.add_agent().unwrap();
    match chat.begin_round() {
        Turn::Produce { producer } => assert_eq!(producer, 0),
        Turn::Finished { .. } => panic!("the first round should start"),
    }
    assert_eq!(chat.add_agent().ok(), Some(2));
    assert_eq!(chat.agent_count(), 3);
    match chat.on_produced(Ok("m")) {
        Fanout::Deliver { message, recipients } => {
            assert_eq!(message, "m");
            assert_eq!(recipients, vec![1]);
        }
        Fanout::Finished { .. } => panic!("the producer succeeded"),
    }
    assert!(!chat.awaits_consumer(2));
    chat.on_consumed(1, Ok(()));
    chat.complete_round();
    match chat.begin_round() {
        Turn::Produce { producer } => assert_eq!(producer, 1),
        Turn::Finished { .. } => panic!("the second round should start"),
    }
    match chat.on_produced(Ok("n")) {
        Fanout::Deliver { recipients, .. } => assert_eq!(recipients, vec![0, 2]),
        Fanout::Finished { .. } => panic!("the producer succeeded"),
    }
}

#[test]
fn shutdown_with_no_round_fires_once() {
    let mut chat: GroupChat<RoundRobin, String> = GroupChat::new(RoundRobin::unbounded());
    chat.add_agent().unwrap();
    assert!(matches!(chat.shutdown(false), Some(Ok(()))));
    assert!(chat.is_terminated());
    assert!(chat.shutdown(false).is_none());
    assert!(chat.shutdown(true).is_none());
    assert!(matches!(chat.add_agent(), Err(GroupChatTaskError::Registration)));
}

#[test]
fn graceful_shutdown_lets_the_round_finish() {
    let mut chat: GroupChat<RoundRobin, String> = GroupChat::new(RoundRobin::unbounded());
    chat.add_agent().unwrap();
    chat.add_agent().unwrap();
    assert!(matches!(chat.begin_round(), Turn::Produce { producer: 0 }));
    assert!(chat.shutdown(false).is_none());
    assert!(!chat.is_terminated());
    assert!(matches!(chat.on_produced(Ok("m")), Fanout::Deliver { .. }));
    chat.on_consumed(1, Ok(()));
    let report = chat.complete_round();
    assert_eq!(report.producer, 0);
    assert!(matches!(chat.begin_round(), Turn::Finished { outcome: Ok(()) }));
    assert!(chat.shutdown(true).is_none());
}

#[test]
fn forced_shutdown_during_a_round_is_an_error() {
    let mut chat: GroupChat<RoundRobin, String> = GroupChat::new(RoundRobin::unbounded());
    chat.add_agent().unwrap();
    chat.add_agent().unwrap();
    assert!(matches!(chat.begin_round(), Turn::Produce { producer: 0 }));
    assert!(matches!(chat.shutdown(true), Some(Err(GroupChatTaskError::Shutdown))));
    assert!(chat.is_terminated());
    assert!(!chat.round_in_flight());
}

/// A scheduler that always picks the same index.
struct Fixed(usize);

impl Scheduler for Fixed {
    fn pick(&self, _agents_count: usize) -> Option<usize> {
        Some(self.0)
    }

    fn advanced(&self, _agents_count: usize) -> Self {
        Fixed(self.0)
    }

    fn next_agent(&mut self, _agents_count: usize) -> Option<usize> {
        Some(self.0)
    }
}

#[test]
fn a_scheduler_out_of_bounds_ends_the_run() {
    let mut chat: GroupChat<Fixed, String> = GroupChat::new(Fixed(5));
    chat.add_agent().unwrap();
    chat.add_agent().unwrap();
    match chat.begin_round() {
        Turn::Finished { outcome: Err(GroupChatTaskError::SchedulerContractViolation { index, count }) } => {
            assert_eq!(index, 5);
            assert_eq!(count, 2);
        }
        _ => panic!("expected a scheduler contract violation"),
    }
    assert!(chat.is_terminated());
}
