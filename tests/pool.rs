use hello::pool::{Submission, ThreadPool};
use std::sync::mpsc;

fn send_job(tx: &mpsc::Sender<u32>, job: u32) -> Result<(), mpsc::SendError<u32>> {
    tx.send(job)
}

#[test]
fn new_starts_one_worker_per_id() {
    let (tx, _rx) = mpsc::channel::<u32>();
    let mut pool = ThreadPool::new(4, tx, |id: usize| id * 10 + 1);
    let handles = pool.shutdown();
    assert_eq!(handles, vec![(0, 1), (1, 11), (2, 21), (3, 31)]);
}

#[test]
fn single_worker_pool() {
    let (tx, _rx) = mpsc::channel::<u32>();
    let mut pool = ThreadPool::new(1, tx, |id: usize| id);
    assert_eq!(pool.shutdown(), vec![(0, 0)]);
}

#[test]
fn submitted_jobs_reach_the_queue_in_order() {
    let (tx, rx) = mpsc::channel::<u32>();
    let pool = ThreadPool::new(2, tx, |id: usize| id);
    for job in 0..8u32 {
        assert!(matches!(pool.execute(job, send_job), Submission::Queued));
    }
    let got: Vec<u32> = rx.try_iter().collect();
    assert_eq!(got, vec![0, 1, 2, 3, 4, 5, 6, 7]);
}

#[test]
fn submission_after_shutdown_is_dropped() {
    let (tx, rx) = mpsc::channel::<u32>();
    let mut pool = ThreadPool::new(3, tx, |id: usize| id);
    assert!(matches!(pool.execute(1, send_job), Submission::Queued));
    let _ = pool.shutdown();
    assert!(matches!(pool.execute(2, send_job), Submission::Retired));
    assert_eq!(rx.recv().unwrap(), 1);
    assert!(rx.recv().is_err());
}

#[test]
fn submission_to_a_closed_queue_fails() {
    let (tx, rx) = mpsc::channel::<u32>();
    drop(rx);
    let pool = ThreadPool::new(2, tx, |id: usize| id);
    match pool.execute(9, send_job) {
        Submission::Failed(e) => assert_eq!(e.0, 9),
        _ => panic!("a closed queue must refuse the job"),
    }
}

#[test]
fn each_handle_is_taken_once() {
    let (tx, _rx) = mpsc::channel::<u32>();
    let mut pool = ThreadPool::new(2, tx, |id: usize| id + 100);
    assert_eq!(pool.shutdown(), vec![(0, 100), (1, 101)]);
    assert_eq!(pool.shutdown(), vec![]);
}

#[test]
fn jobs_submitted_before_teardown_are_delivered_once() {
    let (tx, rx) = mpsc::channel::<u32>();
    let mut pool = ThreadPool::new(4, tx, |id: usize| id);
    for job in 0..8u32 {
        assert!(matches!(pool.execute(job, send_job), Submission::Queued));
    }
    assert_eq!(pool.shutdown().len(), 4);
    let mut got: Vec<u32> = Vec::new();
    while let Ok(job) = rx.recv() {
        got.push(job);
    }
    assert_eq!(got, vec![0, 1, 2, 3, 4, 5, 6, 7]);
}
