use vstd::prelude::*;

use crate::frame::{FailureKind, FunctionResult, Outbound, OutputFrame, Terminal};
use crate::kind::ExecutionKind;
use crate::publisher::{
    finalized_view, output_view, publisher_wf, resulted_view, sent_log, Publisher, PublisherView,
};

verus! {

/// Where one execution stands.
#[derive(Clone, Copy, Debug, PartialEq, Eq, Structural)]
pub enum Phase {
    /// Waiting for the pool to lend an executor.
    AwaitingLease,
    /// Holding a lease; the request is being decrypted.
    Decrypting,
    /// The start frame was written; waiting for the executor to acknowledge it.
    Starting,
    /// Forwarding the executor's output.
    Streaming,
    /// The output stream ended early; waiting for the finish frame.
    AwaitingFinish,
    /// The terminal frame was sent and every resource resolved.
    Done,
}

/// What became of the executor lease.
#[derive(Clone, Copy, Debug, PartialEq, Eq, Structural)]
pub enum LeaseState {
    NotAcquired,
    Held,
    Returned,
    Discarded,
}

/// What became of the kill handle in the registry.
#[derive(Clone, Copy, Debug, PartialEq, Eq, Structural)]
pub enum HandleState {
    NotInstalled,
    Installed,
    /// Taken out by the dispatcher itself.
    Removed,
    /// Taken out and fired by the kill path.
    Fired,
}

/// Something that happened to an execution, reported by whoever runs it.
#[derive(Clone, Debug, PartialEq, Eq)]
pub enum Event {
    LeaseAcquired,
    PoolFailed,
    Decrypted,
    DecryptFailed,
    /// The executor acknowledged the start frame.
    StartAcked,
    /// Writing the start frame failed.
    StartFailed,
    Output(OutputFrame),
    Heartbeat,
    /// Reading the next frame failed.
    ReadError,
    Finish(FunctionResult),
    /// The executor closed its socket.
    PeerClosed,
    TimedOut,
    /// The kill handle fired.
    Killed,
}

/// Something the runner must do, in the order given.
#[derive(Clone, Debug, PartialEq, Eq)]
pub enum Action {
    IncrementMetric,
    DecrementMetric,
    /// Put a fresh kill handle in the registry under this execution's id.
    InstallKillHandle,
    /// Take this execution's id out of the registry.
    RemoveKillHandle,
    /// Write the start frame with the sub-command and the request.
    WriteStart,
    /// Start the clock for the execution timeout.
    StartTimer(u64),
    /// Send this frame to the reply address.
    Publish(Outbound),
    /// Close the write half of the executor socket.
    CloseWrite,
    ReturnLease,
    DiscardLease,
}

/// The state of one execution, as the contracts see it.
pub ghost struct DispatchView {
    pub phase: Phase,
    pub lease: LeaseState,
    pub handle: HandleState,
    pub metric_up: bool,
    pub publisher: PublisherView,
    /// Every output the executor streamed that the session accepted, in order.
    pub emitted: Seq<OutputFrame>,
    pub timeout_ms: u64,
}

/// Whether the session with the executor is under way.
pub open spec fn in_session(p: Phase) -> bool {
    p == Phase::Starting || p == Phase::Streaming || p == Phase::AwaitingFinish
}

/// How the pieces of an execution's state fit together.
pub open spec fn dispatch_wf(v: DispatchView) -> bool {
    &&& publisher_wf(v.publisher)
    &&& v.publisher.outputs == v.emitted
    &&& (v.phase == Phase::Done <==> v.publisher.result is Some)
    &&& v.phase == Phase::Done ==> v.handle != HandleState::Installed && v.lease != LeaseState::Held
        && !v.metric_up
    &&& v.phase == Phase::AwaitingLease ==> v.lease == LeaseState::NotAcquired && v.handle
        == HandleState::NotInstalled && !v.metric_up
    &&& v.phase == Phase::Decrypting ==> v.lease == LeaseState::Held && v.handle
        == HandleState::NotInstalled && v.metric_up
    &&& in_session(v.phase) ==> v.lease == LeaseState::Held && v.handle == HandleState::Installed
        && v.metric_up
    &&& (v.phase == Phase::AwaitingLease || v.phase == Phase::Decrypting || v.phase
        == Phase::Starting) ==> !v.publisher.finalized && v.emitted.len() == 0
    &&& v.phase == Phase::Streaming ==> !v.publisher.finalized
    &&& v.phase == Phase::AwaitingFinish ==> v.publisher.finalized
}

/// Ends an execution with terminal `t`. `completed`: the executor sent its
/// finish frame. `keep_lease`: the lease goes back to the pool rather than
/// being discarded. `killed`: the kill path already took the handle out.
pub open spec fn wind_up(
    v: DispatchView,
    t: Terminal,
    completed: bool,
    keep_lease: bool,
    killed: bool,
) -> (DispatchView, Seq<Action>) {
    let close = if completed {
        seq![Action::CloseWrite]
    } else {
        Seq::empty()
    };
    let handle_acts = if v.handle == HandleState::Installed && !killed {
        seq![Action::RemoveKillHandle]
    } else {
        Seq::empty()
    };
    let lease_acts = if v.lease == LeaseState::Held {
        if keep_lease {
            seq![Action::ReturnLease]
        } else {
            seq![Action::DiscardLease]
        }
    } else {
        Seq::empty()
    };
    let fin = if v.publisher.finalized {
        Seq::empty()
    } else {
        seq![Action::Publish(Outbound::Finalizer)]
    };
    let metric = if v.metric_up {
        seq![Action::DecrementMetric]
    } else {
        Seq::empty()
    };
    let handle = if v.handle == HandleState::Installed {
        if killed {
            HandleState::Fired
        } else {
            HandleState::Removed
        }
    } else {
        v.handle
    };
    let lease = if v.lease == LeaseState::Held {
        if keep_lease {
            LeaseState::Returned
        } else {
            LeaseState::Discarded
        }
    } else {
        v.lease
    };
    (
        DispatchView {
            phase: Phase::Done,
            lease,
            handle,
            metric_up: false,
            publisher: resulted_view(v.publisher, t),
            ..v
        },
        close + handle_acts + lease_acts + fin + seq![Action::Publish(Outbound::Terminal(t))]
            + metric,
    )
}

/// Ends a session with a failure of the dispatcher's own.
pub open spec fn fail(v: DispatchView, k: FailureKind) -> (DispatchView, Seq<Action>) {
    wind_up(v, Terminal::Failed(k), false, false, k == FailureKind::Killed)
}

/// The session's reply to `ev` while it is under way.
pub open spec fn session_step(v: DispatchView, ev: Event) -> (DispatchView, Seq<Action>) {
    match ev {
        Event::TimedOut => fail(v, FailureKind::Timeout),
        Event::Killed => fail(v, FailureKind::Killed),
        Event::PeerClosed => fail(v, FailureKind::PeerClosed),
        Event::Heartbeat => (v, Seq::empty()),
        Event::StartAcked => if v.phase == Phase::Starting {
            (DispatchView { phase: Phase::Streaming, ..v }, Seq::empty())
        } else {
            fail(v, FailureKind::ProtocolViolation)
        },
        Event::StartFailed => if v.phase == Phase::Starting {
            fail(v, FailureKind::StartFailed)
        } else {
            (v, Seq::empty())
        },
        Event::Output(o) => if v.phase == Phase::Streaming {
            (
                DispatchView {
                    publisher: output_view(v.publisher, o),
                    emitted: v.emitted.push(o),
                    ..v
                },
                seq![Action::Publish(Outbound::Output(o))],
            )
        } else {
            fail(v, FailureKind::ProtocolViolation)
        },
        Event::ReadError => if v.phase == Phase::Starting {
            fail(v, FailureKind::StartFailed)
        } else if v.phase == Phase::Streaming {
            (
                DispatchView {
                    phase: Phase::AwaitingFinish,
                    publisher: finalized_view(v.publisher),
                    ..v
                },
                seq![Action::Publish(Outbound::Finalizer)],
            )
        } else {
            fail(v, FailureKind::PeerClosed)
        },
        Event::Finish(r) => if v.phase == Phase::Starting {
            fail(v, FailureKind::ProtocolViolation)
        } else {
            wind_up(v, Terminal::Finished(r), true, true, false)
        },
        _ => (v, Seq::empty()),
    }
}

/// The whole reply of an execution to `ev`: its next state and what to do.
pub open spec fn step_spec(v: DispatchView, ev: Event) -> (DispatchView, Seq<Action>) {
    match v.phase {
        Phase::AwaitingLease => match ev {
            Event::LeaseAcquired => (
                DispatchView {
                    phase: Phase::Decrypting,
                    lease: LeaseState::Held,
                    metric_up: true,
                    ..v
                },
                seq![Action::IncrementMetric],
            ),
            Event::PoolFailed => fail(v, FailureKind::PoolUnavailable),
            _ => (v, Seq::empty()),
        },
        Phase::Decrypting => match ev {
            Event::Decrypted => {
                let installed = DispatchView { handle: HandleState::Installed, ..v };
                if v.timeout_ms == 0 {
                    let (w, acts) = fail(installed, FailureKind::Timeout);
                    (w, seq![Action::InstallKillHandle] + acts)
                } else {
                    (
                        DispatchView { phase: Phase::Starting, ..installed },
                        seq![
                            Action::InstallKillHandle,
                            Action::WriteStart,
                            Action::StartTimer(v.timeout_ms),
                        ],
                    )
                }
            },
            Event::DecryptFailed => wind_up(
                v,
                Terminal::Failed(FailureKind::DecryptFailed),
                false,
                true,
                false,
            ),
            _ => (v, Seq::empty()),
        },
        Phase::Done => (v, Seq::empty()),
        _ => session_step(v, ev),
    }
}

/// Which of the three raced activities decides an execution.
#[derive(Clone, Copy, Debug, PartialEq, Eq, Structural)]
pub enum RaceWinner {
    Session,
    Kill,
    Timeout,
}

/// Picks the winner among the activities that are ready: a finished session
/// beats a kill, and a kill beats the timeout.
pub fn pick_winner(session_ready: bool, kill_ready: bool, timeout_ready: bool) -> (r: Option<
    RaceWinner,
>)
    ensures
        session_ready ==> r == Some(RaceWinner::Session),
        !session_ready && kill_ready ==> r == Some(RaceWinner::Kill),
        !session_ready && !kill_ready && timeout_ready ==> r == Some(RaceWinner::Timeout),
        !session_ready && !kill_ready && !timeout_ready ==> r is None,
{
    if session_ready {
        Some(RaceWinner::Session)
    } else if kill_ready {
        Some(RaceWinner::Kill)
    } else if timeout_ready {
        Some(RaceWinner::Timeout)
    } else {
        None
    }
}


/// The frames a publisher handed back, as actions.
pub open spec fn publish_all(frames: Seq<Outbound>) -> Seq<Action> {
    frames.map_values(|f: Outbound| Action::Publish(f))
}

/// Turns frames into publish actions, appended to `acts` in order.
fn push_frames(acts: &mut Vec<Action>, frames: Vec<Outbound>)
    ensures
        final(acts)@ == old(acts)@ + publish_all(frames@),
{
    let ghost start = acts@;
    let ghost all = frames@;
    let n = frames.len();
    let mut frames = frames;
    let mut k: usize = 0;
    assert(all.subrange(0, 0) =~= Seq::<Outbound>::empty());
    assert(publish_all(Seq::<Outbound>::empty()) =~= Seq::<Action>::empty());
    while frames.len() > 0
        invariant
            all.len() == n,
            k + frames@.len() == all.len(),
            frames@ == all.subrange(k as int, all.len() as int),
            acts@ == start + publish_all(all.subrange(0, k as int)),
        decreases frames@.len(),
    {
        let f = frames.remove(0);
        assert(f == all[k as int]);
        acts.push(Action::Publish(f));
        assert(all.subrange(0, k + 1) =~= all.subrange(0, k as int).push(all[k as int]));
        assert(publish_all(all.subrange(0, k + 1)) =~= publish_all(all.subrange(0, k as int)).push(
            Action::Publish(all[k as int]),
        ));
        k = k + 1;
        assert(frames@ =~= all.subrange(k as int, all.len() as int));
    }
    assert(all.subrange(0, k as int) =~= all);
}

/// One execution of a request: the dispatcher's decisions, driven by events
/// that its runner reports, answered with actions that the runner performs.
pub struct Dispatch {
    execution_id: String,
    kind: ExecutionKind,
    timeout_ms: u64,
    phase: Phase,
    lease: LeaseState,
    handle: HandleState,
    metric_up: bool,
    publisher: Publisher,
    emitted: Ghost<Seq<OutputFrame>>,
}

impl View for Dispatch {
    type V = DispatchView;

    closed spec fn view(&self) -> DispatchView {
        DispatchView {
            phase: self.phase,
            lease: self.lease,
            handle: self.handle,
            metric_up: self.metric_up,
            publisher: self.publisher@,
            emitted: self.emitted@,
            timeout_ms: self.timeout_ms,
        }
    }
}

/// The state of an execution that has just arrived.
pub open spec fn initial_view(timeout_ms: u64) -> DispatchView {
    DispatchView {
        phase: Phase::AwaitingLease,
        lease: LeaseState::NotAcquired,
        handle: HandleState::NotInstalled,
        metric_up: false,
        publisher: PublisherView { outputs: Seq::empty(), finalized: false, result: None },
        emitted: Seq::empty(),
        timeout_ms,
    }
}

impl Dispatch {
    pub closed spec fn wf(&self) -> bool {
        &&& dispatch_wf(self@)
        &&& self.publisher.wf()
    }

    pub closed spec fn spec_execution_id(&self) -> Seq<char> {
        self.execution_id@
    }

    pub closed spec fn spec_kind(&self) -> ExecutionKind {
        self.kind
    }

    pub closed spec fn spec_reply_to(&self) -> Seq<char> {
        self.publisher.spec_reply_to()
    }

    /// A new execution of a request that runs on an executor, with the
    /// given timeout in milliseconds.
    pub fn new(execution_id: String, kind: ExecutionKind, reply_to: String, timeout_ms: u64) -> (r:
        Dispatch)
        requires
            kind != ExecutionKind::Kill,
        ensures
            r.wf(),
            dispatch_wf(r@),
            r@ == initial_view(timeout_ms),
            r.spec_execution_id() == execution_id@,
            r.spec_kind() == kind,
            r.spec_reply_to() == reply_to@,
    {
        Dispatch {
            execution_id,
            kind,
            timeout_ms,
            phase: Phase::AwaitingLease,
            lease: LeaseState::NotAcquired,
            handle: HandleState::NotInstalled,
            metric_up: false,
            publisher: Publisher::new(reply_to),
            emitted: Ghost(Seq::empty()),
        }
    }

    /// The id the kill handle is kept under.
    pub fn execution_id(&self) -> (r: &String)
        ensures
            r@ == self.spec_execution_id(),
    {
        &self.execution_id
    }

    /// The kind of work asked for.
    pub fn kind(&self) -> (r: ExecutionKind)
        ensures
            r == self.spec_kind(),
    {
        self.kind
    }

    /// The reply address.
    pub fn reply_to(&self) -> (r: &String)
        ensures
            r@ == self.spec_reply_to(),
    {
        self.publisher.reply_to()
    }

    /// Where the execution stands.
    pub fn phase(&self) -> (r: Phase)
        ensures
            r == self@.phase,
    {
        self.phase
    }

    /// What became of the lease.
    pub fn lease(&self) -> (r: LeaseState)
        ensures
            r == self@.lease,
    {
        self.lease
    }

    /// What became of the kill handle.
    pub fn handle(&self) -> (r: HandleState)
        ensures
            r == self@.handle,
    {
        self.handle
    }

    /// Whether the execution is over.
    pub fn is_done(&self) -> (r: bool)
        ensures
            r == (self@.phase == Phase::Done),
    {
        self.phase == Phase::Done
    }

    #[verifier::rlimit(40)]
    fn wind_up_exec(&mut self, t: Terminal, completed: bool, keep_lease: bool, killed: bool) -> (acts:
        Vec<Action>)
        requires
            old(self).publisher.wf(),
            old(self)@.publisher.result is None,
        ensures
            final(self).publisher.wf(),
            (final(self)@, acts@) == wind_up(old(self)@, t, completed, keep_lease, killed),
            final(self).execution_id == old(self).execution_id,
            final(self).kind == old(self).kind,
            final(self).spec_reply_to() == old(self).spec_reply_to(),
    {
        let ghost v = self@;
        let ghost tg = t;
        let mut acts: Vec<Action> = Vec::new();
        if completed {
            acts.push(Action::CloseWrite);
        }
        if self.handle == HandleState::Installed {
            if killed {
                self.handle = HandleState::Fired;
            } else {
                acts.push(Action::RemoveKillHandle);
                self.handle = HandleState::Removed;
            }
        }
        if self.lease == LeaseState::Held {
            if keep_lease {
                acts.push(Action::ReturnLease);
                self.lease = LeaseState::Returned;
            } else {
                acts.push(Action::DiscardLease);
                self.lease = LeaseState::Discarded;
            }
        }
        let frames = self.publisher.publish_result(t);
        push_frames(&mut acts, frames);
        if self.metric_up {
            acts.push(Action::DecrementMetric);
            self.metric_up = false;
        }
        self.phase = Phase::Done;
        let ghost expected = wind_up(v, tg, completed, keep_lease, killed);
        assert(self@ =~= expected.0);
        proof {
        if v.publisher.finalized {
            assert(publish_all(seq![Outbound::Terminal(tg)]) =~= seq![
                Action::Publish(Outbound::Terminal(tg)),
            ]);
        } else {
            assert(publish_all(seq![Outbound::Finalizer, Outbound::Terminal(tg)]) =~= seq![
                Action::Publish(Outbound::Finalizer),
                Action::Publish(Outbound::Terminal(tg)),
            ]);
        }
        }
        assert(acts@ =~= expected.1);
        acts
    }

    fn fail_exec(&mut self, k: FailureKind) -> (acts: Vec<Action>)
        requires
            old(self).publisher.wf(),
            old(self)@.publisher.result is None,
        ensures
            final(self).publisher.wf(),
            (final(self)@, acts@) == fail(old(self)@, k),
            final(self).execution_id == old(self).execution_id,
            final(self).kind == old(self).kind,
            final(self).spec_reply_to() == old(self).spec_reply_to(),
    {
        let killed = k == FailureKind::Killed;
        self.wind_up_exec(Terminal::Failed(k), false, false, killed)
    }

    fn session_step_exec(&mut self, ev: Event) -> (acts: Vec<Action>)
        requires
            old(self).wf(),
            in_session(old(self)@.phase),
        ensures
            final(self).publisher.wf(),
            (final(self)@, acts@) == session_step(old(self)@, ev),
            final(self).execution_id == old(self).execution_id,
            final(self).kind == old(self).kind,
            final(self).spec_reply_to() == old(self).spec_reply_to(),
    {
        let ghost v = self@;
        match ev {
            Event::TimedOut => self.fail_exec(FailureKind::Timeout),
            Event::Killed => self.fail_exec(FailureKind::Killed),
            Event::PeerClosed => self.fail_exec(FailureKind::PeerClosed),
            Event::Heartbeat => Vec::new(),
            Event::StartAcked => {
                if self.phase == Phase::Starting {
                    self.phase = Phase::Streaming;
                    Vec::new()
                } else {
                    self.fail_exec(FailureKind::ProtocolViolation)
                }
            },
            Event::StartFailed => {
                if self.phase == Phase::Starting {
                    self.fail_exec(FailureKind::StartFailed)
                } else {
                    Vec::new()
                }
            },
            Event::Output(o) => {
                if self.phase == Phase::Streaming {
                    let ghost og = o;
                    let mut acts: Vec<Action> = Vec::new();
                    match self.publisher.publish_output(o) {
                        Some(f) => acts.push(Action::Publish(f)),
                        None => {},
                    }
                    self.emitted = Ghost(self.emitted@.push(og));
                    assert(acts@ =~= seq![Action::Publish(Outbound::Output(og))]);
                    acts
                } else {
                    self.fail_exec(FailureKind::ProtocolViolation)
                }
            },
            Event::ReadError => {
                if self.phase == Phase::Starting {
                    self.fail_exec(FailureKind::StartFailed)
                } else if self.phase == Phase::Streaming {
                    let mut acts: Vec<Action> = Vec::new();
                    match self.publisher.finalize_output() {
                        Some(f) => acts.push(Action::Publish(f)),
                        None => {},
                    }
                    self.phase = Phase::AwaitingFinish;
                    assert(acts@ =~= seq![Action::Publish(Outbound::Finalizer)]);
                    acts
                } else {
                    self.fail_exec(FailureKind::PeerClosed)
                }
            },
            Event::Finish(r) => {
                if self.phase == Phase::Starting {
                    self.fail_exec(FailureKind::ProtocolViolation)
                } else {
                    self.wind_up_exec(Terminal::Finished(r), true, true, false)
                }
            },
            _ => Vec::new(),
        }
    }

    /// Answers one event: moves to the next state and returns the actions
    /// to perform, in order. Once the execution is over, events change nothing.
    pub fn step(&mut self, ev: Event) -> (acts: Vec<Action>)
        requires
            old(self).wf(),
        ensures
            final(self).wf(),
            dispatch_wf(old(self)@),
            dispatch_wf(final(self)@),
            (final(self)@, acts@) == step_spec(old(self)@, ev),
            final(self).spec_execution_id() == old(self).spec_execution_id(),
            final(self).spec_kind() == old(self).spec_kind(),
            final(self).spec_reply_to() == old(self).spec_reply_to(),
    {
        let ghost v = self@;
        let ghost e = ev;
        proof {
            step_preserves_wf(v, e);
        }
        match self.phase {
            Phase::AwaitingLease => match ev {
                Event::LeaseAcquired => {
                    self.phase = Phase::Decrypting;
                    self.lease = LeaseState::Held;
                    self.metric_up = true;
                    let mut acts: Vec<Action> = Vec::new();
                    acts.push(Action::IncrementMetric);
                    assert(acts@ =~= seq![Action::IncrementMetric]);
                    acts
                },
                Event::PoolFailed => self.fail_exec(FailureKind::PoolUnavailable),
                _ => Vec::new(),
            },
            Phase::Decrypting => match ev {
                Event::Decrypted => {
                    self.handle = HandleState::Installed;
                    let mut acts: Vec<Action> = Vec::new();
                    acts.push(Action::InstallKillHandle);
                    if self.timeout_ms == 0 {
                        let mut rest = self.fail_exec(FailureKind::Timeout);
                        let ghost tail = rest@;
                        acts.append(&mut rest);
                        assert(acts@ =~= seq![Action::InstallKillHandle] + tail);
                    } else {
                        self.phase = Phase::Starting;
                        acts.push(Action::WriteStart);
                        acts.push(Action::StartTimer(self.timeout_ms));
                        assert(acts@ =~= seq![
                            Action::InstallKillHandle,
                            Action::WriteStart,
                            Action::StartTimer(v.timeout_ms),
                        ]);
                    }
                    acts
                },
                Event::DecryptFailed => self.wind_up_exec(
                    Terminal::Failed(FailureKind::DecryptFailed),
                    false,
                    true,
                    false,
                ),
                _ => Vec::new(),
            },
            Phase::Done => Vec::new(),
            _ => self.session_step_exec(ev),
        }
    }
}

/// Every step keeps an execution's state consistent.
pub proof fn step_preserves_wf(v: DispatchView, ev: Event)
    requires
        dispatch_wf(v),
    ensures
        dispatch_wf(step_spec(v, ev).0),
{
    if v.phase == Phase::Streaming {
        if let Event::Output(o) = ev {
            assert(step_spec(v, ev).0.publisher.outputs == v.emitted.push(o));
        }
    }
}

/// When an execution is over, its kill handle is out of the registry (taken
/// by the dispatcher or fired by the kill path), its lease is no longer held
/// (returned or discarded, if one was ever lent), and the in-flight metric
/// is back down.
pub proof fn exit_resolves_handle_and_lease(v: DispatchView)
    requires
        dispatch_wf(v),
        v.phase == Phase::Done,
    ensures
        v.handle == HandleState::NotInstalled || v.handle == HandleState::Removed || v.handle
            == HandleState::Fired,
        v.lease == LeaseState::NotAcquired || v.lease == LeaseState::Returned || v.lease
            == LeaseState::Discarded,
        !v.metric_up,
{
}

/// The step that ends an execution asks for the kill handle to be taken out
/// unless the kill path fired it, and for a held lease to be returned or
/// discarded.
pub proof fn ending_step_resolves(v: DispatchView, ev: Event)
    requires
        dispatch_wf(v),
        v.phase != Phase::Done,
        step_spec(v, ev).0.phase == Phase::Done,
    ensures
        ({
            let (w, acts) = step_spec(v, ev);
            &&& (step_spec(v, ev).0.handle == HandleState::Removed ==> acts.contains(
                Action::RemoveKillHandle,
            ))
            &&& (v.lease == LeaseState::Held ==> acts.contains(Action::ReturnLease)
                || acts.contains(Action::DiscardLease))
            &&& (v.metric_up ==> acts.contains(Action::DecrementMetric))
        }),
{
    wind_up_resolves(v);
    let installed = DispatchView { handle: HandleState::Installed, ..v };
    wind_up_resolves(installed);
    if v.phase == Phase::Decrypting && ev is Decrypted && v.timeout_ms == 0 {
        let tail = fail(installed, FailureKind::Timeout).1;
        let acts = seq![Action::InstallKillHandle] + tail;
        assert forall|x: Action| tail.contains(x) implies acts.contains(x) by {
            let i = choose|i: int| 0 <= i < tail.len() && tail[i] == x;
            assert(acts[i + 1] == x);
        }
    }
}

/// What `wind_up` asks for, whatever the terminal.
proof fn wind_up_resolves(v: DispatchView)
    ensures
        forall|t: Terminal, c: bool, kl: bool, killed: bool|
            {
                let acts = #[trigger] wind_up(v, t, c, kl, killed).1;
                &&& (v.handle == HandleState::Installed && !killed ==> acts.contains(
                    Action::RemoveKillHandle,
                ))
                &&& (v.lease == LeaseState::Held ==> acts.contains(Action::ReturnLease)
                    || acts.contains(Action::DiscardLease))
                &&& (v.metric_up ==> acts.contains(Action::DecrementMetric))
            },
{
    assert forall|t: Terminal, c: bool, kl: bool, killed: bool|
        {
            let acts = #[trigger] wind_up(v, t, c, kl, killed).1;
            &&& (v.handle == HandleState::Installed && !killed ==> acts.contains(
                Action::RemoveKillHandle,
            ))
            &&& (v.lease == LeaseState::Held ==> acts.contains(Action::ReturnLease)
                || acts.contains(Action::DiscardLease))
            &&& (v.metric_up ==> acts.contains(Action::DecrementMetric))
        } by {
        let acts = wind_up(v, t, c, kl, killed).1;
        let nc: int = if c {
            1
        } else {
            0
        };
        let nh: int = if v.handle == HandleState::Installed && !killed {
            1
        } else {
            0
        };
        if v.handle == HandleState::Installed && !killed {
            assert(acts[nc] == Action::RemoveKillHandle);
        }
        if v.lease == LeaseState::Held {
            if kl {
                assert(acts[nc + nh] == Action::ReturnLease);
            } else {
                assert(acts[nc + nh] == Action::DiscardLease);
            }
        }
        if v.metric_up {
            assert(acts[acts.len() - 1] == Action::DecrementMetric);
        }
    }
}

/// Once an execution is over, no event changes it or sends anything more.
pub proof fn done_is_final(v: DispatchView, ev: Event)
    requires
        v.phase == Phase::Done,
    ensures
        step_spec(v, ev) == (v, Seq::<Action>::empty()),
{
}

/// An execution sends at most one terminal frame, and none but the last
/// frame is terminal.
pub proof fn at_most_one_terminal_frame(v: DispatchView)
    requires
        dispatch_wf(v),
    ensures
        forall|i: int, j: int|
            0 <= i < sent_log(v.publisher).len() && 0 <= j < sent_log(v.publisher).len()
                && #[trigger] sent_log(v.publisher)[i] is Terminal && #[trigger] sent_log(
                v.publisher,
            )[j] is Terminal ==> i == j,
{
    crate::publisher::at_most_one_terminal(v.publisher);
    assert forall|i: int, j: int|
        0 <= i < sent_log(v.publisher).len() && 0 <= j < sent_log(v.publisher).len()
            && #[trigger] sent_log(v.publisher)[i] is Terminal && #[trigger] sent_log(
            v.publisher,
        )[j] is Terminal implies i == j by {
        assert(crate::publisher::is_terminal(sent_log(v.publisher)[i]));
        assert(crate::publisher::is_terminal(sent_log(v.publisher)[j]));
    }
}

/// Once the kill handle is installed, the session cannot end without a
/// terminal frame: a finished execution has sent exactly one, as its last
/// frame, and a running one is ended by its timeout or by a kill.
pub proof fn installed_execution_ends_with_one_terminal(v: DispatchView)
    requires
        dispatch_wf(v),
        v.handle != HandleState::NotInstalled,
    ensures
        v.phase == Phase::Done ==> sent_log(v.publisher).len() > 0 && sent_log(v.publisher).last() is Terminal,
        in_session(v.phase) ==> step_spec(v, Event::TimedOut).0.phase == Phase::Done
            && step_spec(v, Event::Killed).0.phase == Phase::Done,
{
}

/// Outputs reach the reply address in the order the executor emitted them:
/// the `i`-th output accepted is the `i`-th frame sent.
pub proof fn outputs_published_in_emission_order(v: DispatchView)
    requires
        dispatch_wf(v),
    ensures
        forall|i: int|
            0 <= i < v.emitted.len() ==> #[trigger] sent_log(v.publisher)[i] == Outbound::Output(
                v.emitted[i],
            ),
{
    crate::publisher::outputs_in_order(v.publisher);
}

/// With a timeout of zero, the execution times out as soon as its kill
/// handle is installed: no start frame is written.
pub proof fn zero_timeout_starts_no_session(v: DispatchView)
    requires
        dispatch_wf(v),
        v.phase == Phase::Decrypting,
        v.timeout_ms == 0,
    ensures
        step_spec(v, Event::Decrypted).0.phase == Phase::Done,
        step_spec(v, Event::Decrypted).0.publisher.result == Some(
            Terminal::Failed(FailureKind::Timeout),
        ),
        !step_spec(v, Event::Decrypted).1.contains(Action::WriteStart),
        step_spec(v, Event::Decrypted).0.handle == HandleState::Removed,
        step_spec(v, Event::Decrypted).0.lease == LeaseState::Discarded,
{
    let acts = step_spec(v, Event::Decrypted).1;
    if acts.contains(Action::WriteStart) {
        let i = choose|i: int| 0 <= i < acts.len() && acts[i] == Action::WriteStart;
        assert(acts[i] == Action::WriteStart);
    }
}

} // verus!
