use flwr::backoff::BackoffPolicy;
use flwr::backoff::delay_for;
use flwr::task_loop::LoopAction;
use flwr::task_loop::LoopEvent;
use flwr::task_loop::NodeId;
use flwr::task_loop::Phase;
use flwr::task_loop::TaskLoop;

fn policy() -> BackoffPolicy {
    BackoffPolicy { base_delay_ms: 100, max_delay_ms: 1000, max_failures: 5 }
}

fn running_machine() -> TaskLoop {
    let mut m = TaskLoop::new(policy(), 50);
    assert_eq!(m.step(LoopEvent::StartRequested), LoopAction::Connect);
    assert_eq!(m.step(LoopEvent::ConnectOk), LoopAction::CreateNode);
    assert_eq!(m.step(LoopEvent::NodeCreated(NodeId { id: 7 })), LoopAction::PullTask);
    assert_eq!(m.phase, Phase::Registered);
    assert_eq!(m.step(LoopEvent::TaskAvailable), LoopAction::RunTask);
    assert_eq!(m.phase, Phase::Running);
    m
}

#[test]
fn startup_registers_then_pulls() {
    let m = running_machine();
    assert_eq!(m.node, Some(NodeId { id: 7 }));
    assert_eq!(m.failures, 0);
}

#[test]
fn registration_rejection_is_fatal() {
    let mut m = TaskLoop::new(policy(), 50);
    m.step(LoopEvent::StartRequested);
    m.step(LoopEvent::ConnectOk);
    assert_eq!(m.step(LoopEvent::NodeRejected), LoopAction::Fail);
    assert_eq!(m.phase, Phase::Failed);
}

#[test]
fn startup_connect_failure_is_fatal() {
    let mut m = TaskLoop::new(policy(), 50);
    m.step(LoopEvent::StartRequested);
    assert_eq!(m.step(LoopEvent::ConnectFailed), LoopAction::Fail);
    assert_eq!(m.phase, Phase::Failed);
}

#[test]
fn delay_schedule_has_exact_values() {
    let p = policy();
    assert_eq!(delay_for(&p, 0), 100);
    assert_eq!(delay_for(&p, 1), 200);
    assert_eq!(delay_for(&p, 2), 400);
    assert_eq!(delay_for(&p, 3), 800);
    assert_eq!(delay_for(&p, 4), 1000);
    assert_eq!(delay_for(&p, 10), 1000);
}

#[test]
fn delay_schedule_respects_odd_cap() {
    let p = BackoffPolicy { base_delay_ms: 3, max_delay_ms: 7, max_failures: 5 };
    assert_eq!(delay_for(&p, 0), 3);
    assert_eq!(delay_for(&p, 1), 6);
    assert_eq!(delay_for(&p, 2), 7);
    let q = BackoffPolicy { base_delay_ms: 9, max_delay_ms: 7, max_failures: 5 };
    assert_eq!(delay_for(&q, 0), 7);
}

#[test]
fn consecutive_failures_back_off_with_nondecreasing_delays() {
    let mut m = running_machine();
    let mut last: u64 = 0;
    // Run of consecutive transport failures: one pull failure, then
    // failing reconnect attempts.
    let mut ev = LoopEvent::PullFailed;
    for _ in 0..5 {
        match m.step(ev) {
            LoopAction::Retry(d) => {
                assert!(d >= last);
                assert!(d <= policy().max_delay_ms);
                last = d;
            }
            other => panic!("expected a retry, got {:?}", other),
        }
        assert_eq!(m.phase, Phase::Backoff);
        ev = LoopEvent::ConnectFailed;
    }
    // The bound is 5: the sixth consecutive failure is fatal.
    assert_eq!(m.step(LoopEvent::ConnectFailed), LoopAction::Fail);
    assert_eq!(m.phase, Phase::Failed);
}

#[test]
fn reconnect_resumes_pulling_and_success_resets_failures() {
    let mut m = running_machine();
    assert!(matches!(m.step(LoopEvent::PullFailed), LoopAction::Retry(100)));
    assert_eq!(m.step(LoopEvent::ConnectOk), LoopAction::PullTask);
    assert_eq!(m.phase, Phase::Running);
    // A successful pull interrupts the consecutive-failure run.
    assert_eq!(m.step(LoopEvent::NoTask), LoopAction::Idle(50));
    assert_eq!(m.failures, 0);
    assert!(matches!(m.step(LoopEvent::PullFailed), LoopAction::Retry(100)));
}

#[test]
fn polling_without_tasks_stays_running() {
    let mut m = running_machine();
    for _ in 0..3 {
        assert_eq!(m.step(LoopEvent::NoTask), LoopAction::Idle(50));
        assert_eq!(m.phase, Phase::Running);
    }
}

#[test]
fn push_outcome_drives_next_pull() {
    let mut m = running_machine();
    assert_eq!(m.step(LoopEvent::PushOk), LoopAction::PullTask);
    assert_eq!(m.phase, Phase::Running);
    assert_eq!(m.step(LoopEvent::TaskAvailable), LoopAction::RunTask);
    assert_eq!(m.step(LoopEvent::TaskSkipped), LoopAction::PullTask);
}

#[test]
fn orderly_shutdown_deletes_node_exactly_once() {
    let mut m = running_machine();
    assert_eq!(m.step(LoopEvent::ShutdownSignal), LoopAction::DeleteNode(NodeId { id: 7 }));
    assert_eq!(m.phase, Phase::Draining);
    // No event in Draining requests another delete; finishing releases
    // the session.
    assert_eq!(m.step(LoopEvent::ShutdownSignal), LoopAction::Ignore);
    assert_eq!(m.phase, Phase::Draining);
    assert_eq!(m.step(LoopEvent::DeleteFinished), LoopAction::Stop);
    assert_eq!(m.phase, Phase::Disconnected);
    assert_eq!(m.node, None);
    // A shutdown signal after the session ended deletes nothing.
    assert_eq!(m.step(LoopEvent::ShutdownSignal), LoopAction::Ignore);
}

#[test]
fn shutdown_from_backoff_also_drains() {
    let mut m = running_machine();
    assert!(matches!(m.step(LoopEvent::PullFailed), LoopAction::Retry(_)));
    assert_eq!(m.step(LoopEvent::ShutdownSignal), LoopAction::DeleteNode(NodeId { id: 7 }));
    assert_eq!(m.phase, Phase::Draining);
}
