use callcomapi::guard::ComGuard;
use callcomapi::protocol::submit_step;
use callcomapi::protocol::worker_step;
use callcomapi::protocol::SendOutcome;
use callcomapi::protocol::SubmitAction;
use callcomapi::protocol::WorkerEvent;
use callcomapi::protocol::WorkerPhase;
use callcomapi::ComModel;

#[test]
fn worker_life_cycle() {
    let p = WorkerPhase::Starting;
    let p = worker_step(p, WorkerEvent::ContextEntered);
    assert_eq!(p, WorkerPhase::Running);
    let p = worker_step(p, WorkerEvent::TaskDone);
    assert_eq!(p, WorkerPhase::Running);
    let p = worker_step(p, WorkerEvent::ChannelClosed);
    assert_eq!(p, WorkerPhase::Draining);
    let p = worker_step(p, WorkerEvent::GuardReleased);
    assert_eq!(p, WorkerPhase::Terminated);
}

#[test]
fn worker_ignores_foreign_events() {
    assert_eq!(
        worker_step(WorkerPhase::Starting, WorkerEvent::TaskDone),
        WorkerPhase::Starting
    );
    assert_eq!(
        worker_step(WorkerPhase::Terminated, WorkerEvent::ContextEntered),
        WorkerPhase::Terminated
    );
    assert_eq!(
        worker_step(WorkerPhase::Terminated, WorkerEvent::ChannelClosed),
        WorkerPhase::Terminated
    );
}

#[test]
fn retry_once_then_fail() {
    assert_eq!(submit_step(1, SendOutcome::Delivered), SubmitAction::Wait);
    assert_eq!(submit_step(1, SendOutcome::Rejected), SubmitAction::Retry);
    assert_eq!(submit_step(2, SendOutcome::Delivered), SubmitAction::Wait);
    assert_eq!(submit_step(2, SendOutcome::Rejected), SubmitAction::Fail);
}

#[test]
fn guard_records_its_context() {
    let g = ComGuard::new(ComModel::MTA);
    assert_eq!(g.model(), ComModel::MTA);
    let g2 = ComGuard::new(ComModel::STA);
    assert_eq!(g2.model(), ComModel::STA);
}
