use mt_webserver::pool::{PoolState, SubmitOutcome, WorkerStep};

#[test]
fn all_submitted_jobs_run_exactly_once_before_teardown_completes() {
    let mut pool = PoolState::new(2);
    assert_eq!(pool.execute(1), SubmitOutcome::Queued);
    assert_eq!(pool.execute(2), SubmitOutcome::Queued);
    assert_eq!(pool.execute(3), SubmitOutcome::Queued);
    pool.teardown(&vec![false, false]);
    assert_eq!(pool.queued_count(), 0);
    assert_eq!(pool.executed_jobs(), &vec![1, 2, 3]);
    assert!(pool.worker_joined(0));
    assert!(pool.worker_joined(1));
}

#[test]
fn submit_after_teardown_drops_the_job() {
    let mut pool = PoolState::new(1);
    pool.close_sender();
    assert_eq!(pool.execute(7), SubmitOutcome::Dropped);
    assert_eq!(pool.queued_count(), 0);
    assert_eq!(pool.executed_jobs(), &Vec::new());
    assert!(!pool.is_sender_open());
}

#[test]
fn teardown_joins_every_worker_despite_a_panicked_job() {
    let mut pool = PoolState::new(3);
    pool.execute(1);
    pool.execute(2);
    pool.teardown(&vec![true, false, true]);
    for id in 0..pool.worker_count() {
        assert!(pool.worker_joined(id));
    }
    assert_eq!(pool.executed_jobs(), &vec![1, 2]);
}

#[test]
fn workers_drain_the_queue_in_fifo_order() {
    let mut pool = PoolState::new(1);
    pool.execute(10);
    pool.execute(11);
    assert_eq!(pool.worker_step(false), WorkerStep::Ran(10));
    assert_eq!(pool.worker_step(false), WorkerStep::Ran(11));
    // Empty queue, send side still open: the worker waits for more work.
    assert_eq!(pool.worker_step(false), WorkerStep::Blocked);
    // Closing the send side is the sole shutdown signal.
    pool.close_sender();
    assert_eq!(pool.worker_step(false), WorkerStep::Stopped);
}

#[test]
fn a_panicking_job_counts_as_completed_and_the_worker_continues() {
    let mut pool = PoolState::new(1);
    pool.execute(1);
    pool.execute(2);
    // The first job panics: caught, logged by the caller, treated as done.
    assert_eq!(pool.worker_step(true), WorkerStep::Ran(1));
    // The worker keeps consuming rather than stopping.
    assert_eq!(pool.worker_step(false), WorkerStep::Ran(2));
    assert_eq!(pool.executed_jobs(), &vec![1, 2]);
    assert_eq!(pool.worker_step(false), WorkerStep::Blocked);
}

#[test]
fn close_is_idempotent() {
    let mut pool = PoolState::new(2);
    pool.close_sender();
    pool.close_sender();
    assert!(!pool.is_sender_open());
    pool.teardown(&vec![false, false]);
    assert_eq!(pool.queued_count(), 0);
}

#[test]
fn new_pool_starts_open_and_idle() {
    let pool = PoolState::new(4);
    assert_eq!(pool.worker_count(), 4);
    assert!(pool.is_sender_open());
    assert_eq!(pool.queued_count(), 0);
    assert_eq!(pool.executed_jobs(), &Vec::new());
    for id in 0..4 {
        assert!(!pool.worker_joined(id));
    }
}
