use std::collections::HashSet;

use web_server::pool::{worker_step, ThreadPool, WorkerAction};
use web_server::queue::{Received, SharedQueue};

/// A pool of size n starts with exactly n live workers and an empty queue.
#[test]
fn pool_starts_with_n_live_workers() {
    for n in 1..=8usize {
        let pool: ThreadPool<u64> = ThreadPool::new(n);
        assert_eq!(pool.worker_count(), n);
        assert!(pool.all_workers_live());
        assert_eq!(pool.pending_count(), 0);
        assert!(!pool.all_workers_joined());
    }
}

fn run_k_jobs_and_count(k: u64) -> u64 {
    let workers = 4usize;
    let mut pool: ThreadPool<u64> = ThreadPool::new(workers);
    let mut counter: u64 = 0;
    for id in 0..k {
        pool.execute(id);
    }
    // Let the workers claim and run half of the jobs in round-robin turns;
    // teardown waits for the rest.
    let mut turn = 0usize;
    while pool.pending_count() > k as usize / 2 {
        match pool.worker_poll(turn % workers) {
            WorkerAction::Run(_id) => counter += 1,
            WorkerAction::Wait => {}
            WorkerAction::Stop => unreachable!(),
        }
        turn += 1;
    }
    let drained = pool.shutdown();
    counter += drained.len() as u64;
    assert!(pool.all_workers_joined());
    counter
}

/// Every submitted job runs to completion exactly once: k jobs, each
/// bumping a counter when run, leave the counter at exactly k.
#[test]
fn every_job_runs_exactly_once() {
    assert_eq!(run_k_jobs_and_count(0), 0);
    assert_eq!(run_k_jobs_and_count(1), 1);
    assert_eq!(run_k_jobs_and_count(1000), 1000);
}

/// No job runs twice: tagging each job with a unique id and collecting the
/// ids on execution yields as many distinct ids as submissions.
#[test]
fn no_job_runs_twice() {
    let workers = 3usize;
    let submissions = 100u64;
    let mut pool: ThreadPool<u64> = ThreadPool::new(workers);
    let mut seen: HashSet<u64> = HashSet::new();
    for id in 0..submissions {
        pool.execute(id);
    }
    let mut turn = 0usize;
    while pool.pending_count() > 25 {
        if let WorkerAction::Run(id) = pool.worker_poll(turn % workers) {
            assert!(seen.insert(id), "job {id} ran twice");
        }
        turn += 1;
    }
    for id in pool.shutdown() {
        assert!(seen.insert(id), "job {id} ran twice");
    }
    assert_eq!(seen.len() as u64, submissions);
}

/// Teardown terminates every worker: after shutdown no worker is live,
/// every one has been joined, and nothing is left pending.
#[test]
fn teardown_joins_all_workers() {
    let mut pool: ThreadPool<u64> = ThreadPool::new(5);
    pool.execute(1);
    pool.execute(2);
    let drained = pool.shutdown();
    assert_eq!(drained, vec![1, 2]);
    assert_eq!(pool.pending_count(), 0);
    assert!(pool.all_workers_joined());
    assert!(!pool.all_workers_live());
    assert_eq!(pool.worker_count(), 5);
}

/// Submitting nothing and tearing down immediately completes cleanly for
/// pools of any size.
#[test]
fn empty_pool_tears_down_immediately() {
    for n in 1..=6usize {
        let mut pool: ThreadPool<u64> = ThreadPool::new(n);
        let drained = pool.shutdown();
        assert!(drained.is_empty());
        assert!(pool.all_workers_joined());
    }
}

/// Jobs from several interleaved submitters all execute exactly once:
/// no loss, no duplication, whichever submitter a job came from.
#[test]
fn interleaved_submitters_lose_nothing() {
    let workers = 2usize;
    let mut pool: ThreadPool<u64> = ThreadPool::new(workers);
    let mut seen: HashSet<u64> = HashSet::new();
    // Two submitters take turns; a worker claims a job every third step.
    let mut turn = 0usize;
    for round in 0..50u64 {
        pool.execute(2 * round); // first submitter: even ids
        pool.execute(2 * round + 1); // second submitter: odd ids
        if round % 3 == 0 {
            if let WorkerAction::Run(id) = pool.worker_poll(turn % workers) {
                assert!(seen.insert(id));
            }
            turn += 1;
        }
    }
    for id in pool.shutdown() {
        assert!(seen.insert(id));
    }
    assert_eq!(seen.len(), 100);
}

/// A worker runs in submission order: the queue is first-in, first-out.
#[test]
fn jobs_are_claimed_in_submission_order() {
    let mut pool: ThreadPool<u64> = ThreadPool::new(2);
    for id in [7u64, 8, 9] {
        pool.execute(id);
    }
    for expected in [7u64, 8, 9] {
        match pool.worker_poll(0) {
            WorkerAction::Run(id) => assert_eq!(id, expected),
            _ => panic!("expected a job"),
        }
    }
    // Nothing is pending and the queue is still open: the worker waits.
    assert!(matches!(pool.worker_poll(1), WorkerAction::Wait));
    let drained = pool.shutdown();
    assert!(drained.is_empty());
}

/// The worker loop's decision: run what was received, wait while the queue
/// is open, stop on closure.
#[test]
fn worker_decision_follows_receipt() {
    assert!(matches!(worker_step(Received::Job(42u64)), WorkerAction::Run(42)));
    assert!(matches!(worker_step(Received::<u64>::Pending), WorkerAction::Wait));
    assert!(matches!(worker_step(Received::<u64>::Closed), WorkerAction::Stop));
}

/// Sending fails exactly once the queue is closed, and returns the job.
#[test]
fn send_fails_only_after_close() {
    let mut q: SharedQueue<u64> = SharedQueue::new();
    assert!(q.send(5).is_ok());
    assert!(q.send(6).is_ok());
    q.close();
    assert_eq!(q.send(7), Err(7));
    // Pending jobs survive the close and still come out in order.
    assert!(matches!(q.receive(), Received::Job(5)));
    assert!(matches!(q.receive(), Received::Job(6)));
    assert!(matches!(q.receive(), Received::Closed));
    assert!(matches!(q.receive(), Received::Closed));
}

/// An open, empty queue reports `Pending`; only a closed, drained one
/// reports `Closed`.
#[test]
fn receive_distinguishes_pending_from_closed() {
    let mut q: SharedQueue<u64> = SharedQueue::new();
    assert!(matches!(q.receive(), Received::Pending));
    assert!(q.send(1).is_ok());
    assert!(matches!(q.receive(), Received::Job(1)));
    assert!(matches!(q.receive(), Received::Pending));
    q.close();
    assert!(matches!(q.receive(), Received::Closed));
}
