use tokio::sync::oneshot;
use veritech_dispatch::dispatch::pick_winner;
use veritech_dispatch::{
    Action, Dispatch, Event, ExecutionKind, FailureKind, FunctionResult, HandleState, KillHandle,
    KillRegistry, LeaseState, Outbound, OutputFrame, Phase, RaceWinner, Terminal,
};

/// Carries out the dispatcher's actions the way a runner would, and records
/// what reached the reply address.
struct Harness {
    registry: KillRegistry,
    kill_rx: Option<oneshot::Receiver<()>>,
    metric: i64,
    sent: Vec<Outbound>,
    started: bool,
    closed: bool,
    lease: Option<&'static str>,
}

impl Harness {
    fn new() -> Harness {
        Harness {
            registry: KillRegistry::new(),
            kill_rx: None,
            metric: 0,
            sent: Vec::new(),
            started: false,
            closed: false,
            lease: None,
        }
    }

    fn run(&mut self, d: &mut Dispatch, ev: Event) -> Vec<Action> {
        let acts = d.step(ev);
        let copy = acts.clone();
        for a in acts {
            match a {
                Action::IncrementMetric => self.metric += 1,
                Action::DecrementMetric => self.metric -= 1,
                Action::InstallKillHandle => {
                    let (tx, rx) = oneshot::channel();
                    self.registry.insert(d.execution_id().clone(), KillHandle::new(tx));
                    self.kill_rx = Some(rx);
                }
                Action::RemoveKillHandle => {
                    self.registry.remove(d.execution_id());
                }
                Action::WriteStart => self.started = true,
                Action::StartTimer(_) => {}
                Action::Publish(f) => self.sent.push(f),
                Action::CloseWrite => self.closed = true,
                Action::ReturnLease => self.lease = Some("returned"),
                Action::DiscardLease => self.lease = Some("discarded"),
            }
        }
        copy
    }
}

fn hi() -> OutputFrame {
    OutputFrame::new(
        "E1".to_string(),
        "stdout".to_string(),
        "info".to_string(),
        None,
        None,
        "hi".to_string(),
        1000,
    )
}

fn started(id: &str, timeout_ms: u64) -> (Dispatch, Harness) {
    let mut d = Dispatch::new(
        id.to_string(),
        ExecutionKind::Resolver,
        "inbox.abc".to_string(),
        timeout_ms,
    );
    let mut h = Harness::new();
    assert_eq!(h.run(&mut d, Event::LeaseAcquired), vec![Action::IncrementMetric]);
    assert_eq!(
        h.run(&mut d, Event::Decrypted),
        vec![Action::InstallKillHandle, Action::WriteStart, Action::StartTimer(timeout_ms)]
    );
    assert!(h.registry.contains(id));
    assert!(h.run(&mut d, Event::StartAcked).is_empty());
    assert_eq!(d.phase(), Phase::Streaming);
    (d, h)
}

fn failed(k: FailureKind) -> Outbound {
    Outbound::Terminal(Terminal::Failed(k))
}

#[test]
fn happy_path_publishes_output_then_success() {
    let (mut d, mut h) = started("E1", 30_000);
    assert_eq!(d.reply_to(), "inbox.abc");
    assert_eq!(d.kind(), ExecutionKind::Resolver);
    h.run(&mut d, Event::Output(hi()));
    assert!(h.run(&mut d, Event::Heartbeat).is_empty());
    let result = FunctionResult::Success("{\"value\":42}".to_string());
    let acts = h.run(&mut d, Event::Finish(result));
    assert_eq!(
        acts,
        vec![
            Action::CloseWrite,
            Action::RemoveKillHandle,
            Action::ReturnLease,
            Action::Publish(Outbound::Finalizer),
            Action::Publish(Outbound::Terminal(Terminal::Finished(FunctionResult::Success(
                "{\"value\":42}".to_string()
            )))),
            Action::DecrementMetric,
        ]
    );
    assert_eq!(
        h.sent,
        vec![
            Outbound::Output(hi()),
            Outbound::Finalizer,
            Outbound::Terminal(Terminal::Finished(FunctionResult::Success(
                "{\"value\":42}".to_string()
            ))),
        ]
    );
    assert_eq!(h.lease, Some("returned"));
    assert!(h.registry.is_empty());
    assert_eq!(h.metric, 0);
    assert!(h.closed);
    assert!(d.is_done());
    assert_eq!(d.lease(), LeaseState::Returned);
    assert_eq!(d.handle(), HandleState::Removed);
}

#[test]
fn timeout_discards_lease_and_reports_timeout() {
    let (mut d, mut h) = started("E1", 1000);
    assert!(h.run(&mut d, Event::Heartbeat).is_empty());
    assert!(h.run(&mut d, Event::Heartbeat).is_empty());
    h.run(&mut d, Event::TimedOut);
    assert_eq!(h.sent, vec![Outbound::Finalizer, failed(FailureKind::Timeout)]);
    assert_eq!(h.lease, Some("discarded"));
    assert!(h.registry.is_empty());
    assert_eq!(h.metric, 0);
    // The handle was taken out, never fired.
    let mut rx = h.kill_rx.take().unwrap();
    assert!(matches!(rx.try_recv(), Err(oneshot::error::TryRecvError::Closed)));
}

#[test]
fn kill_ends_the_execution_as_killed() {
    let (mut d, mut h) = started("E2", 30_000);
    h.run(&mut d, Event::Output(hi()));
    // The kill path finds the handle and fires it.
    assert!(h.registry.kill("E2"));
    let mut rx = h.kill_rx.take().unwrap();
    assert_eq!(rx.try_recv(), Ok(()));
    let acts = h.run(&mut d, Event::Killed);
    assert!(!acts.contains(&Action::RemoveKillHandle));
    assert_eq!(
        h.sent,
        vec![Outbound::Output(hi()), Outbound::Finalizer, failed(FailureKind::Killed)]
    );
    assert_eq!(h.lease, Some("discarded"));
    assert_eq!(d.handle(), HandleState::Fired);
    assert!(h.registry.is_empty());
    assert_eq!(h.metric, 0);
}

#[test]
fn decrypt_failure_returns_lease_and_restores_metric() {
    let mut d = Dispatch::new("E1".to_string(), ExecutionKind::Resolver, "inbox.abc".to_string(), 1000);
    let mut h = Harness::new();
    h.run(&mut d, Event::LeaseAcquired);
    assert_eq!(h.metric, 1);
    h.run(&mut d, Event::DecryptFailed);
    assert_eq!(h.sent, vec![Outbound::Finalizer, failed(FailureKind::DecryptFailed)]);
    assert_eq!(h.metric, 0);
    assert_eq!(h.lease, Some("returned"));
    assert!(!h.started);
    assert!(h.registry.is_empty());
}

#[test]
fn peer_closed_mid_stream_reports_peer_closed() {
    let (mut d, mut h) = started("E1", 30_000);
    h.run(&mut d, Event::Output(hi()));
    h.run(&mut d, Event::PeerClosed);
    assert_eq!(
        h.sent,
        vec![Outbound::Output(hi()), Outbound::Finalizer, failed(FailureKind::PeerClosed)]
    );
    assert_eq!(h.lease, Some("discarded"));
    assert!(h.registry.is_empty());
    assert_eq!(h.metric, 0);
}

#[test]
fn colliding_executions_share_one_registry_slot() {
    let mut reg = KillRegistry::new();
    let mut first = Dispatch::new("E3".to_string(), ExecutionKind::Resolver, "inbox.a".to_string(), 30_000);
    let mut second = Dispatch::new("E3".to_string(), ExecutionKind::Resolver, "inbox.b".to_string(), 30_000);
    let mut receivers = Vec::new();
    for d in [&mut first, &mut second] {
        d.step(Event::LeaseAcquired);
        for a in d.step(Event::Decrypted) {
            if a == Action::InstallKillHandle {
                let (tx, rx) = oneshot::channel();
                reg.insert(d.execution_id().clone(), KillHandle::new(tx));
                receivers.push(rx);
            }
        }
        d.step(Event::StartAcked);
    }
    assert!(reg.kill("E3"));
    assert!(matches!(receivers[0].try_recv(), Err(oneshot::error::TryRecvError::Closed)));
    assert_eq!(receivers[1].try_recv(), Ok(()));
    second.step(Event::Killed);
    let acts = first.step(Event::Finish(FunctionResult::Success("{}".to_string())));
    assert!(acts.contains(&Action::ReturnLease));
    assert!(acts.contains(&Action::Publish(Outbound::Terminal(Terminal::Finished(
        FunctionResult::Success("{}".to_string())
    )))));
}

#[test]
fn zero_timeout_times_out_before_any_session() {
    let mut d = Dispatch::new("E1".to_string(), ExecutionKind::Resolver, "inbox.abc".to_string(), 0);
    let mut h = Harness::new();
    h.run(&mut d, Event::LeaseAcquired);
    let acts = h.run(&mut d, Event::Decrypted);
    assert!(!acts.contains(&Action::WriteStart));
    assert!(!h.started);
    assert_eq!(h.sent, vec![Outbound::Finalizer, failed(FailureKind::Timeout)]);
    assert_eq!(h.lease, Some("discarded"));
    assert!(h.registry.is_empty());
    assert!(d.is_done());
}

#[test]
fn pool_failure_publishes_retriable_failure() {
    let mut d = Dispatch::new("E1".to_string(), ExecutionKind::Validation, "inbox.abc".to_string(), 1000);
    let mut h = Harness::new();
    h.run(&mut d, Event::PoolFailed);
    assert_eq!(h.sent, vec![Outbound::Finalizer, failed(FailureKind::PoolUnavailable)]);
    assert_eq!(h.metric, 0);
    assert_eq!(h.lease, None);
    assert_eq!(d.lease(), LeaseState::NotAcquired);
}

#[test]
fn events_after_the_end_change_nothing() {
    let (mut d, mut h) = started("E1", 1000);
    h.run(&mut d, Event::TimedOut);
    assert!(h.run(&mut d, Event::Killed).is_empty());
    assert!(h.run(&mut d, Event::Finish(FunctionResult::Success("{}".to_string()))).is_empty());
    assert!(h.run(&mut d, Event::Output(hi())).is_empty());
    let terminals = h.sent.iter().filter(|f| matches!(f, Outbound::Terminal(_))).count();
    assert_eq!(terminals, 1);
}

#[test]
fn read_error_finalizes_then_awaits_finish() {
    let (mut d, mut h) = started("E1", 1000);
    h.run(&mut d, Event::Output(hi()));
    assert_eq!(h.run(&mut d, Event::ReadError), vec![Action::Publish(Outbound::Finalizer)]);
    assert_eq!(d.phase(), Phase::AwaitingFinish);
    let failure = FunctionResult::Failure { kind: "UserCodeException".to_string(), message: "boom".to_string() };
    h.run(&mut d, Event::Finish(failure));
    assert_eq!(
        h.sent,
        vec![
            Outbound::Output(hi()),
            Outbound::Finalizer,
            Outbound::Terminal(Terminal::Finished(FunctionResult::Failure {
                kind: "UserCodeException".to_string(),
                message: "boom".to_string(),
            })),
        ]
    );
    assert_eq!(h.lease, Some("returned"));
}

#[test]
fn output_before_start_ack_is_a_protocol_violation() {
    let mut d = Dispatch::new("E1".to_string(), ExecutionKind::ActionRun, "inbox.abc".to_string(), 1000);
    let mut h = Harness::new();
    h.run(&mut d, Event::LeaseAcquired);
    h.run(&mut d, Event::Decrypted);
    h.run(&mut d, Event::Output(hi()));
    assert_eq!(h.sent, vec![Outbound::Finalizer, failed(FailureKind::ProtocolViolation)]);
    assert_eq!(h.lease, Some("discarded"));
    assert!(h.registry.is_empty());
}

#[test]
fn start_failure_discards_lease() {
    let mut d = Dispatch::new("E1".to_string(), ExecutionKind::Management, "inbox.abc".to_string(), 1000);
    let mut h = Harness::new();
    h.run(&mut d, Event::LeaseAcquired);
    h.run(&mut d, Event::Decrypted);
    h.run(&mut d, Event::StartFailed);
    assert_eq!(h.sent, vec![Outbound::Finalizer, failed(FailureKind::StartFailed)]);
    assert_eq!(h.lease, Some("discarded"));
    assert_eq!(h.metric, 0);
}

#[test]
fn race_prefers_session_then_kill_then_timeout() {
    assert_eq!(pick_winner(true, true, true), Some(RaceWinner::Session));
    assert_eq!(pick_winner(false, true, true), Some(RaceWinner::Kill));
    assert_eq!(pick_winner(false, false, true), Some(RaceWinner::Timeout));
    assert_eq!(pick_winner(false, false, false), None);
}
