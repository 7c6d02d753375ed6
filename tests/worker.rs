use hello::worker::{WorkerEvent, WorkerState};

#[test]
fn worker_runs_jobs_until_the_queue_closes() {
    let mut s = WorkerState::Idle;
    s = s.step(WorkerEvent::JobReceived);
    assert_eq!(s, WorkerState::Executing);
    assert!(!s.is_terminated());
    s = s.step(WorkerEvent::JobFinished);
    assert_eq!(s, WorkerState::Idle);
    s = s.step(WorkerEvent::QueueClosed);
    assert_eq!(s, WorkerState::Terminated);
    assert!(s.is_terminated());
}

#[test]
fn poisoned_lock_terminates_one_worker() {
    assert_eq!(WorkerState::Idle.step(WorkerEvent::LockFailed), WorkerState::Terminated);
}

#[test]
fn terminated_worker_stays_terminated() {
    for e in [
        WorkerEvent::LockFailed,
        WorkerEvent::JobReceived,
        WorkerEvent::QueueClosed,
        WorkerEvent::JobFinished,
    ] {
        assert_eq!(WorkerState::Terminated.step(e), WorkerState::Terminated);
    }
}

#[test]
fn running_job_is_not_interrupted() {
    assert_eq!(WorkerState::Executing.step(WorkerEvent::QueueClosed), WorkerState::Executing);
    assert_eq!(WorkerState::Executing.step(WorkerEvent::JobReceived), WorkerState::Executing);
    assert_eq!(WorkerState::Idle.step(WorkerEvent::JobFinished), WorkerState::Idle);
}
