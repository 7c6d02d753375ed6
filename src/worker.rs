//! The life of one worker thread: it waits for a job, runs it, and waits
//! again, until the work queue is closed or cannot be reached.
use vstd::prelude::*;

verus! {

/// Where a worker stands.
#[derive(Clone, Copy, Debug, PartialEq, Eq, Structural)]
pub enum WorkerState {
    /// Waiting for the work queue and then for its next job.
    Idle,
    /// Running a job to completion.
    Executing,
    /// Stopped for good; the thread returns.
    Terminated,
}

/// What a worker observes.
#[derive(Clone, Copy, Debug, PartialEq, Eq, Structural)]
pub enum WorkerEvent {
    /// The lock on the work queue could not be acquired (a peer panicked
    /// while holding it).
    LockFailed,
    /// A job came out of the work queue.
    JobReceived,
    /// The work queue is closed and drained.
    QueueClosed,
    /// The running job returned.
    JobFinished,
}

/// The state that follows `s` on event `e`. An event that cannot occur in a
/// state leaves that state unchanged.
pub open spec fn next_state(s: WorkerState, e: WorkerEvent) -> WorkerState {
    match (s, e) {
        (WorkerState::Idle, WorkerEvent::JobReceived) => WorkerState::Executing,
        (WorkerState::Idle, WorkerEvent::LockFailed) => WorkerState::Terminated,
        (WorkerState::Idle, WorkerEvent::QueueClosed) => WorkerState::Terminated,
        (WorkerState::Executing, WorkerEvent::JobFinished) => WorkerState::Idle,
        _ => s,
    }
}

/// The state reached from `s` after the events of `es`, in order.
pub open spec fn run_events(s: WorkerState, es: Seq<WorkerEvent>) -> WorkerState
    decreases es.len(),
{
    if es.len() == 0 {
        s
    } else {
        run_events(next_state(s, es[0]), es.drop_first())
    }
}

impl WorkerState {
    /// Advances this worker on event `e`.
    pub fn step(self, e: WorkerEvent) -> (r: WorkerState)
        ensures
            r == next_state(self, e),
    {
        match (self, e) {
            (WorkerState::Idle, WorkerEvent::JobReceived) => WorkerState::Executing,
            (WorkerState::Idle, WorkerEvent::LockFailed) => WorkerState::Terminated,
            (WorkerState::Idle, WorkerEvent::QueueClosed) => WorkerState::Terminated,
            (WorkerState::Executing, WorkerEvent::JobFinished) => WorkerState::Idle,
            _ => self,
        }
    }

    /// Whether the worker has stopped and its thread should return.
    pub fn is_terminated(&self) -> (r: bool)
        ensures
            r == (*self == WorkerState::Terminated),
    {
        match self {
            WorkerState::Terminated => true,
            _ => false,
        }
    }
}

/// A terminated worker stays terminated, whatever it observes afterwards.
pub proof fn lemma_terminated_is_final(es: Seq<WorkerEvent>)
    ensures
        run_events(WorkerState::Terminated, es) == WorkerState::Terminated,
    decreases es.len(),
{
    if es.len() > 0 {
        lemma_terminated_is_final(es.drop_first());
    }
}

} // verus!
