//! Task-loop state machine: registration, the pull/dispatch/push cycle,
//! backoff/reconnect and shutdown, as a pure transition function.
//!
//! The machine decides; the surrounding transport driver performs.  Each
//! step consumes one [`LoopEvent`] reported by the driver (the outcome of
//! a network call, or a shutdown signal observed at the top of a cycle
//! iteration) and returns the one [`LoopAction`] to perform next.  The
//! whole transition relation is the spec function [`spec_step`].

use vstd::prelude::*;

use crate::backoff::BackoffPolicy;
use crate::backoff::delay_for;
use crate::backoff::spec_delay;

verus! {

/// The client's registered identity with the coordinating server,
/// obtained at startup and released at shutdown.
#[derive(Clone, Copy, PartialEq, Eq, Structural, Debug)]
pub struct NodeId {
    pub id: i64,
}

/// Phases of a session.
#[derive(Clone, Copy, PartialEq, Eq, Structural, Debug)]
pub enum Phase {
    /// No session; the starting and final phase.
    Disconnected,
    /// Establishing the channel and registering.
    Connecting,
    /// Registered; the first pull of the cycle is out.
    Registered,
    /// In the pull/dispatch/push cycle.
    Running,
    /// Waiting out a backoff delay before a reconnect attempt.
    Backoff,
    /// Shutting down in an orderly way: releasing the node.
    Draining,
    /// Terminated fatally: registration rejected, or the consecutive
    /// transport-failure bound exceeded.
    Failed,
}

/// What the transport driver observed.
#[derive(Clone, Copy, PartialEq, Eq, Structural, Debug)]
pub enum LoopEvent {
    /// The session should begin.
    StartRequested,
    /// `connect` succeeded.
    ConnectOk,
    /// `connect` failed.
    ConnectFailed,
    /// `create_node` succeeded with this identity.
    NodeCreated(NodeId),
    /// The server rejected `create_node`.
    NodeRejected,
    /// `pull_task` returned an envelope.
    TaskAvailable,
    /// `pull_task` returned none; a normal outcome.
    NoTask,
    /// The pulled envelope was skipped because its identity was
    /// unrecoverable; no reply was pushed.
    TaskSkipped,
    /// `push_task_res` succeeded.
    PushOk,
    /// `push_task_res` failed.
    PushFailed,
    /// `pull_task` failed.
    PullFailed,
    /// The best-effort `delete_node` attempt finished, well or badly.
    DeleteFinished,
    /// An external shutdown signal was observed at the top of a cycle
    /// iteration.
    ShutdownSignal,
}

/// What the transport driver must do next.
#[derive(Clone, Copy, PartialEq, Eq, Structural, Debug)]
pub enum LoopAction {
    /// Establish the underlying channel.
    Connect,
    /// Register this client with the server.
    CreateNode,
    /// Pull the next task.
    PullTask,
    /// Hand the pulled envelope to the task handler and push the reply,
    /// if the handler produced one.
    RunTask,
    /// Wait the given interval in milliseconds, then pull again.
    Idle(u64),
    /// Wait the given backoff delay in milliseconds, then attempt to
    /// reconnect.
    Retry(u64),
    /// Unregister the given node, best-effort, and report back.
    DeleteNode(NodeId),
    /// The session ended in an orderly way; stop.
    Stop,
    /// A fatal failure ended the session; stop with an error.
    Fail,
    /// The event does not apply in the current phase; do nothing.
    Ignore,
}

/// The task loop: the one owner of session and registration state.
#[derive(Clone, Copy, Debug)]
pub struct TaskLoop {
    /// Reconnect bounds, from session configuration.
    pub policy: BackoffPolicy,
    /// Wait between polls when no task is queued, in milliseconds; zero
    /// for the streaming transport, which suspends in the pull itself.
    pub poll_interval_ms: u64,
    pub phase: Phase,
    /// The registration handle while one is held.
    pub node: Option<NodeId>,
    /// Consecutive transport failures not yet interrupted by a
    /// successful pull or push.
    pub failures: u32,
}

impl TaskLoop {
    /// The phases of the pull/dispatch/push cycle.
    pub open spec fn in_cycle(self) -> bool {
        self.phase == Phase::Registered || self.phase == Phase::Running
    }

    /// The phases in which a node identity is held.
    pub open spec fn holds_node(self) -> bool {
        ||| self.in_cycle()
        ||| self.phase == Phase::Backoff
        ||| self.phase == Phase::Draining
    }

    /// Structural invariant: a node identity is held exactly while the
    /// session needs one, and the failure count never exceeds its bound.
    pub open spec fn wf(self) -> bool {
        &&& self.holds_node() ==> self.node is Some
        &&& (self.phase == Phase::Disconnected || self.phase == Phase::Connecting)
            ==> self.node is None
        &&& self.failures <= self.policy.max_failures
    }

    /// A fresh, disconnected machine.
    pub fn new(policy: BackoffPolicy, poll_interval_ms: u64) -> (m: Self)
        ensures
            m == (TaskLoop {
                policy,
                poll_interval_ms,
                phase: Phase::Disconnected,
                node: None,
                failures: 0,
            }),
            m.wf(),
    {
        TaskLoop { policy, poll_interval_ms, phase: Phase::Disconnected, node: None, failures: 0 }
    }

    /// Advances the machine by one observed event; returns the action the
    /// driver must perform next.  The exact transition relation is
    /// [`spec_step`].
    pub fn step(&mut self, ev: LoopEvent) -> (a: LoopAction)
        ensures
            (*final(self), a) == spec_step(*old(self), ev),
    {
        match (self.phase, ev) {
            (Phase::Disconnected, LoopEvent::StartRequested) => {
                self.phase = Phase::Connecting;
                self.node = None;
                self.failures = 0;
                LoopAction::Connect
            },
            (Phase::Connecting, LoopEvent::ConnectOk) => LoopAction::CreateNode,
            (Phase::Connecting, LoopEvent::ConnectFailed) => {
                self.phase = Phase::Failed;
                LoopAction::Fail
            },
            (Phase::Connecting, LoopEvent::NodeCreated(id)) => {
                self.phase = Phase::Registered;
                self.node = Some(id);
                self.failures = 0;
                LoopAction::PullTask
            },
            (Phase::Connecting, LoopEvent::NodeRejected) => {
                self.phase = Phase::Failed;
                LoopAction::Fail
            },
            (Phase::Registered, LoopEvent::TaskAvailable) => {
                self.phase = Phase::Running;
                self.failures = 0;
                LoopAction::RunTask
            },
            (Phase::Running, LoopEvent::TaskAvailable) => {
                self.failures = 0;
                LoopAction::RunTask
            },
            (Phase::Registered, LoopEvent::NoTask) => {
                self.phase = Phase::Running;
                self.failures = 0;
                LoopAction::Idle(self.poll_interval_ms)
            },
            (Phase::Running, LoopEvent::NoTask) => {
                self.failures = 0;
                LoopAction::Idle(self.poll_interval_ms)
            },
            (Phase::Registered, LoopEvent::PullFailed) => self.apply_failure(),
            (Phase::Running, LoopEvent::PullFailed) => self.apply_failure(),
            (Phase::Running, LoopEvent::PushOk) => {
                self.failures = 0;
                LoopAction::PullTask
            },
            (Phase::Running, LoopEvent::TaskSkipped) => LoopAction::PullTask,
            (Phase::Running, LoopEvent::PushFailed) => self.apply_failure(),
            (Phase::Backoff, LoopEvent::ConnectOk) => {
                self.phase = Phase::Running;
                LoopAction::PullTask
            },
            (Phase::Backoff, LoopEvent::ConnectFailed) => self.apply_failure(),
            (Phase::Registered, LoopEvent::ShutdownSignal) => self.apply_shutdown(),
            (Phase::Running, LoopEvent::ShutdownSignal) => self.apply_shutdown(),
            (Phase::Backoff, LoopEvent::ShutdownSignal) => self.apply_shutdown(),
            (Phase::Draining, LoopEvent::DeleteFinished) => {
                self.phase = Phase::Disconnected;
                self.node = None;
                LoopAction::Stop
            },
            _ => LoopAction::Ignore,
        }
    }

    /// Books one transport failure: backoff below the bound, fatal
    /// termination at it.
    fn apply_failure(&mut self) -> (a: LoopAction)
        ensures
            (*final(self), a) == spec_fail_step(*old(self)),
    {
        if self.failures >= self.policy.max_failures {
            self.phase = Phase::Failed;
            LoopAction::Fail
        } else {
            let d = delay_for(&self.policy, self.failures);
            self.phase = Phase::Backoff;
            self.failures = self.failures + 1;
            LoopAction::Retry(d)
        }
    }

    /// Begins an orderly shutdown: release the node if one is held.
    fn apply_shutdown(&mut self) -> (a: LoopAction)
        ensures
            (*final(self), a) == spec_shutdown_step(*old(self)),
    {
        match self.node {
            Some(id) => {
                self.phase = Phase::Draining;
                LoopAction::DeleteNode(id)
            },
            None => {
                self.phase = Phase::Disconnected;
                LoopAction::Stop
            },
        }
    }
}

/// One transport failure: to `Backoff` with the scheduled delay while the
/// bound allows, to fatal termination once it is reached.
pub open spec fn spec_fail_step(m: TaskLoop) -> (TaskLoop, LoopAction) {
    if m.failures >= m.policy.max_failures {
        (TaskLoop { phase: Phase::Failed, ..m }, LoopAction::Fail)
    } else {
        (
            TaskLoop { phase: Phase::Backoff, failures: (m.failures + 1) as u32, ..m },
            LoopAction::Retry(spec_delay(m.policy, m.failures as nat) as u64),
        )
    }
}

/// An orderly shutdown: release the node if one is held.
pub open spec fn spec_shutdown_step(m: TaskLoop) -> (TaskLoop, LoopAction) {
    match m.node {
        Some(id) => (TaskLoop { phase: Phase::Draining, ..m }, LoopAction::DeleteNode(id)),
        None => (TaskLoop { phase: Phase::Disconnected, ..m }, LoopAction::Stop),
    }
}

/// The transition relation of the task loop.
pub open spec fn spec_step(m: TaskLoop, ev: LoopEvent) -> (TaskLoop, LoopAction) {
    match (m.phase, ev) {
        (Phase::Disconnected, LoopEvent::StartRequested) => (
            TaskLoop { phase: Phase::Connecting, node: None, failures: 0, ..m },
            LoopAction::Connect,
        ),
        (Phase::Connecting, LoopEvent::ConnectOk) => (m, LoopAction::CreateNode),
        (Phase::Connecting, LoopEvent::ConnectFailed) => (
            TaskLoop { phase: Phase::Failed, ..m },
            LoopAction::Fail,
        ),
        (Phase::Connecting, LoopEvent::NodeCreated(id)) => (
            TaskLoop { phase: Phase::Registered, node: Some(id), failures: 0, ..m },
            LoopAction::PullTask,
        ),
        (Phase::Connecting, LoopEvent::NodeRejected) => (
            TaskLoop { phase: Phase::Failed, ..m },
            LoopAction::Fail,
        ),
        (Phase::Registered, LoopEvent::TaskAvailable) => (
            TaskLoop { phase: Phase::Running, failures: 0, ..m },
            LoopAction::RunTask,
        ),
        (Phase::Running, LoopEvent::TaskAvailable) => (
            TaskLoop { failures: 0, ..m },
            LoopAction::RunTask,
        ),
        (Phase::Registered, LoopEvent::NoTask) => (
            TaskLoop { phase: Phase::Running, failures: 0, ..m },
            LoopAction::Idle(m.poll_interval_ms),
        ),
        (Phase::Running, LoopEvent::NoTask) => (
            TaskLoop { failures: 0, ..m },
            LoopAction::Idle(m.poll_interval_ms),
        ),
        (Phase::Registered, LoopEvent::PullFailed) => spec_fail_step(m),
        (Phase::Running, LoopEvent::PullFailed) => spec_fail_step(m),
        (Phase::Running, LoopEvent::PushOk) => (TaskLoop { failures: 0, ..m }, LoopAction::PullTask),
        (Phase::Running, LoopEvent::TaskSkipped) => (m, LoopAction::PullTask),
        (Phase::Running, LoopEvent::PushFailed) => spec_fail_step(m),
        (Phase::Backoff, LoopEvent::ConnectOk) => (
            TaskLoop { phase: Phase::Running, ..m },
            LoopAction::PullTask,
        ),
        (Phase::Backoff, LoopEvent::ConnectFailed) => spec_fail_step(m),
        (Phase::Registered, LoopEvent::ShutdownSignal) => spec_shutdown_step(m),
        (Phase::Running, LoopEvent::ShutdownSignal) => spec_shutdown_step(m),
        (Phase::Backoff, LoopEvent::ShutdownSignal) => spec_shutdown_step(m),
        (Phase::Draining, LoopEvent::DeleteFinished) => (
            TaskLoop { phase: Phase::Disconnected, node: None, ..m },
            LoopAction::Stop,
        ),
        _ => (m, LoopAction::Ignore),
    }
}

/// The structural invariant is preserved by every step.
pub proof fn lemma_step_preserves_wf(m: TaskLoop, ev: LoopEvent)
    requires
        m.wf(),
    ensures
        spec_step(m, ev).0.wf(),
{
}

/// The events that are transport failures recoverable by backoff.
pub open spec fn transport_failure(m: TaskLoop, ev: LoopEvent) -> bool {
    ||| m.in_cycle() && ev == LoopEvent::PullFailed
    ||| m.phase == Phase::Running && ev == LoopEvent::PushFailed
    ||| m.phase == Phase::Backoff && ev == LoopEvent::ConnectFailed
}

/// Bounded retry: below the failure bound, a transport failure moves the
/// machine to `Backoff` with the delay scheduled for the current failure
/// index and increments the count — so a run of consecutive failures
/// retries with non-decreasing, capped delays (see
/// [`crate::backoff::lemma_backoff_nondecreasing`]); at the bound, the
/// machine terminates fatally instead of retrying.
pub proof fn lemma_failure_limit(m: TaskLoop, ev: LoopEvent)
    requires
        m.wf(),
        transport_failure(m, ev),
    ensures
        m.failures < m.policy.max_failures ==> {
            let (m2, a) = spec_step(m, ev);
            &&& m2.phase == Phase::Backoff
            &&& m2.failures == m.failures + 1
            &&& a == LoopAction::Retry(spec_delay(m.policy, m.failures as nat) as u64)
        },
        m.failures == m.policy.max_failures ==> {
            let (m2, a) = spec_step(m, ev);
            &&& m2.phase == Phase::Failed
            &&& a == LoopAction::Fail
        },
{
}

/// One task in flight at a time: a task is run exactly when a pull just
/// produced one; after a push completes, the next action is another
/// pull — so pushes follow their pulls in order, never batched.
pub proof fn lemma_one_task_in_flight(m: TaskLoop, ev: LoopEvent)
    ensures
        (spec_step(m, ev).1 == LoopAction::RunTask) <==> (m.in_cycle() && ev
            == LoopEvent::TaskAvailable),
        m.phase == Phase::Running && ev == LoopEvent::PushOk ==> spec_step(m, ev).1
            == LoopAction::PullTask,
{
}

/// The machine after consuming a sequence of events, first event first.
pub open spec fn spec_run(m: TaskLoop, evs: Seq<LoopEvent>) -> TaskLoop
    decreases evs.len(),
{
    if evs.len() == 0 {
        m
    } else {
        spec_run(spec_step(m, evs.first()).0, evs.drop_first())
    }
}

/// How many of the steps along a run request a `DeleteNode` action.
pub open spec fn spec_run_deletes(m: TaskLoop, evs: Seq<LoopEvent>) -> nat
    decreases evs.len(),
{
    if evs.len() == 0 {
        0
    } else {
        (if spec_step(m, evs.first()).1 matches LoopAction::DeleteNode(_) {
            1nat
        } else {
            0nat
        }) + spec_run_deletes(spec_step(m, evs.first()).0, evs.drop_first())
    }
}

/// No event of the run asks for a new session.
pub open spec fn no_restart(evs: Seq<LoopEvent>) -> bool {
    forall|i: int| 0 <= i < evs.len() ==> evs[i] != LoopEvent::StartRequested
}

/// The phases a session can be in after its delete was requested (or
/// after it ended): none of them requests another delete, and without a
/// restart the machine never leaves them.
pub open spec fn past_delete(m: TaskLoop) -> bool {
    ||| m.phase == Phase::Draining
    ||| m.phase == Phase::Disconnected
    ||| m.phase == Phase::Failed
}

/// Once past the delete, a run without restarts requests none.
pub proof fn lemma_no_delete_past_delete(m: TaskLoop, evs: Seq<LoopEvent>)
    requires
        past_delete(m),
        no_restart(evs),
    ensures
        spec_run_deletes(m, evs) == 0,
    decreases evs.len(),
{
    if evs.len() > 0 {
        assert(evs[0] != LoopEvent::StartRequested);
        assert(no_restart(evs.drop_first())) by {
            assert(forall|i: int|
                0 <= i < evs.drop_first().len() ==> evs.drop_first()[i] == evs[i + 1]);
        }
        lemma_no_delete_past_delete(spec_step(m, evs.first()).0, evs.drop_first());
    }
}

/// Lifecycle pairing, over whole runs: within one session — a run that
/// never asks for a new session — a `DeleteNode` action is requested at
/// most once, however the events fall.
pub proof fn lemma_delete_at_most_once(m: TaskLoop, evs: Seq<LoopEvent>)
    requires
        m.wf(),
        no_restart(evs),
    ensures
        spec_run_deletes(m, evs) <= 1,
    decreases evs.len(),
{
    if evs.len() > 0 {
        assert(evs[0] != LoopEvent::StartRequested);
        assert(no_restart(evs.drop_first())) by {
            assert(forall|i: int|
                0 <= i < evs.drop_first().len() ==> evs.drop_first()[i] == evs[i + 1]);
        }
        let (m2, a) = spec_step(m, evs.first());
        lemma_step_preserves_wf(m, evs.first());
        if a matches LoopAction::DeleteNode(_) {
            lemma_no_delete_past_delete(m2, evs.drop_first());
        } else {
            lemma_delete_at_most_once(m2, evs.drop_first());
        }
    }
}

/// Lifecycle pairing: a `DeleteNode` action is requested exactly when a
/// shutdown signal arrives in a phase that holds a node — and then
/// exactly once per session, since that step enters `Draining`, whose
/// only transition releases the session without another delete.
pub proof fn lemma_lifecycle_pairing(m: TaskLoop, ev: LoopEvent)
    requires
        m.wf(),
    ensures
        (spec_step(m, ev).1 matches LoopAction::DeleteNode(_)) <==> (ev
            == LoopEvent::ShutdownSignal && m.holds_node() && m.phase != Phase::Draining),
        ev == LoopEvent::ShutdownSignal && m.holds_node() && m.phase != Phase::Draining ==> {
            let (m2, a) = spec_step(m, ev);
            &&& m2.phase == Phase::Draining
            &&& a == LoopAction::DeleteNode(m.node->0)
        },
{
}

} // verus!
