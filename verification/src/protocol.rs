//! The protocol the running system follows around the dispatcher model: the
//! life cycle of a worker's loop, and the bounded retry of a submission
//! whose handle went stale.
//!
//! The embedding performs the outside work — spawning the thread, entering
//! the native context, sending on the channel — and asks these step
//! functions what comes next after each event.

use vstd::prelude::*;

verus! {

/// How many times a submission may try to send before giving up: the first
/// attempt and one retry through a fresh registry lookup.
pub const SEND_ATTEMPTS: u64 = 2;

/// The phase of one worker's loop.
#[derive(Clone, Copy, PartialEq, Eq, Debug, Structural)]
pub enum WorkerPhase {
    /// Spawned, not yet entered its native context.
    Starting,
    /// Entered the context; receiving and running tasks.
    Running,
    /// Its channel closed; no further task will arrive.
    Draining,
    /// Context torn down; the thread is gone.
    Terminated,
}

/// What a worker's loop observes.
#[derive(Clone, Copy, PartialEq, Eq, Debug, Structural)]
pub enum WorkerEvent {
    /// The native context was entered (best effort: an "already initialized"
    /// outcome counts as entered too).
    ContextEntered,
    /// One task was received, run, and its result sent back.
    TaskDone,
    /// The channel closed: every sender was dropped.
    ChannelClosed,
    /// The retained context guard was released.
    GuardReleased,
}

/// The worker life cycle: Starting, then Running for as long as tasks
/// arrive, Draining once the channel closes, Terminated once the context
/// guard is released. No other transition exists.
pub open spec fn worker_step_spec(phase: WorkerPhase, event: WorkerEvent) -> WorkerPhase {
    match (phase, event) {
        (WorkerPhase::Starting, WorkerEvent::ContextEntered) => WorkerPhase::Running,
        (WorkerPhase::Running, WorkerEvent::TaskDone) => WorkerPhase::Running,
        (WorkerPhase::Running, WorkerEvent::ChannelClosed) => WorkerPhase::Draining,
        (WorkerPhase::Draining, WorkerEvent::GuardReleased) => WorkerPhase::Terminated,
        _ => phase,
    }
}

/// The next phase of a worker's loop after an event. An event that has no
/// transition from the current phase changes nothing, and no event leads out
/// of `Terminated`.
pub fn worker_step(phase: WorkerPhase, event: WorkerEvent) -> (next: WorkerPhase)
    ensures
        next == worker_step_spec(phase, event),
        phase == WorkerPhase::Terminated ==> next == WorkerPhase::Terminated,
{
    match (phase, event) {
        (WorkerPhase::Starting, WorkerEvent::ContextEntered) => WorkerPhase::Running,
        (WorkerPhase::Running, WorkerEvent::TaskDone) => WorkerPhase::Running,
        (WorkerPhase::Running, WorkerEvent::ChannelClosed) => WorkerPhase::Draining,
        (WorkerPhase::Draining, WorkerEvent::GuardReleased) => WorkerPhase::Terminated,
        _ => phase,
    }
}

/// What one send attempt came to.
#[derive(Clone, Copy, PartialEq, Eq, Debug, Structural)]
pub enum SendOutcome {
    /// The message was enqueued; the worker will run the task.
    Delivered,
    /// The channel was closed: the handle is stale, its worker is gone.
    Rejected,
}

/// What the submitting caller does next.
#[derive(Clone, Copy, PartialEq, Eq, Debug, Structural)]
pub enum SubmitAction {
    /// Wait on the response channel for the task's result.
    Wait,
    /// Fetch a fresh handle from the registry and send again.
    Retry,
    /// The retry budget is exhausted: the submission fails fatally.
    Fail,
}

/// The retry policy: a delivered message is waited on; a rejected send is
/// retried through a fresh registry lookup until the attempt budget is
/// spent, then the submission fails fatally.
pub open spec fn submit_step_spec(attempts_made: u64, outcome: SendOutcome) -> SubmitAction {
    match outcome {
        SendOutcome::Delivered => SubmitAction::Wait,
        SendOutcome::Rejected => if attempts_made < SEND_ATTEMPTS {
            SubmitAction::Retry
        } else {
            SubmitAction::Fail
        },
    }
}

/// What the caller does after its latest send attempt, `attempts_made`
/// counting that attempt.
pub fn submit_step(attempts_made: u64, outcome: SendOutcome) -> (action: SubmitAction)
    requires
        attempts_made >= 1,
    ensures
        action == submit_step_spec(attempts_made, outcome),
        outcome == SendOutcome::Delivered ==> action == SubmitAction::Wait,
        outcome == SendOutcome::Rejected && attempts_made >= SEND_ATTEMPTS ==> action
            == SubmitAction::Fail,
{
    match outcome {
        SendOutcome::Delivered => SubmitAction::Wait,
        SendOutcome::Rejected => {
            if attempts_made < SEND_ATTEMPTS {
                SubmitAction::Retry
            } else {
                SubmitAction::Fail
            }
        },
    }
}

} // verus!
