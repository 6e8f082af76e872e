//! The worker pool's job-queue and shutdown protocol.
//!
//! A pool owns a fixed number of workers that share one unbounded FIFO job
//! queue. Submitting is decoupled from execution: many producers enqueue,
//! the workers drain. Closing the queue's send side is the only shutdown
//! signal, and teardown joins every worker before it is complete.
//!
//! [`PoolState`] is that protocol over plain job ids: the threads and the
//! channel that realize it live outside the library and must follow these
//! transitions. What the protocol guarantees — every accepted job runs
//! exactly once before teardown completes, a submission after teardown is
//! dropped and never panics, a job that panics still counts as completed
//! and never stops its worker, and every worker is joined even when its
//! last job panicked — is stated in the contracts below and proved.

use vstd::prelude::*;

verus! {

/// What the pool did with a submitted job.
#[derive(Clone, Copy, Debug, PartialEq, Eq, Structural)]
pub enum SubmitOutcome {
    /// The job was placed at the back of the queue.
    Queued,
    /// The queue's send side was already torn down: the job is dropped —
    /// logged by the caller, never queued, never run.
    Dropped,
}

/// What a worker does after asking the queue for its next job.
#[derive(Clone, Copy, Debug, PartialEq, Eq, Structural)]
pub enum WorkerStep {
    /// The worker took the queue's front job and ran it to completion.
    Ran(u64),
    /// The queue is empty but the send side is still open: the worker
    /// blocks until a job arrives.
    Blocked,
    /// The queue is empty and the send side is gone: the worker stops.
    Stopped,
}

/// The protocol state of a fixed-size worker pool: how many workers it has,
/// whether the queue's send side is still open, which accepted jobs are
/// still queued, which jobs have been run, and which workers have been
/// joined during teardown.
pub struct PoolState {
    size: usize,
    sender_open: bool,
    queue: Vec<u64>,
    executed: Vec<u64>,
    joined: Vec<bool>,
}

impl PoolState {
    /// The fixed number of workers.
    pub closed spec fn size(self) -> nat {
        self.size as nat
    }

    /// Whether the job queue's send side is still open.
    pub closed spec fn sender_open(self) -> bool {
        self.sender_open
    }

    /// The ids of the accepted jobs no worker has taken yet, in FIFO order.
    pub closed spec fn queued(self) -> Seq<u64> {
        self.queue@
    }

    /// The ids of the jobs workers have run, in the order they were taken.
    pub closed spec fn executed(self) -> Seq<u64> {
        self.executed@
    }

    /// Whether each worker, by id, has been joined during teardown.
    pub closed spec fn joined(self) -> Seq<bool> {
        self.joined@
    }

    /// Every job the queue ever accepted, in submission order: the ones
    /// already run followed by the ones still waiting.
    pub open spec fn accepted(self) -> Seq<u64> {
        self.executed() + self.queued()
    }

    /// Well-formedness: at least one worker, and one join flag per worker.
    pub open spec fn wf(self) -> bool {
        self.size() > 0 && self.joined().len() == self.size()
    }

    /// Constructs the protocol state of a pool of `size` workers sharing
    /// one fresh queue. A pool of zero workers is a programmer error,
    /// excluded up front rather than handled.
    pub fn new(size: usize) -> (p: PoolState)
        requires
            size > 0,
        ensures
            p.wf(),
            p.size() == size,
            p.sender_open(),
            p.queued() == Seq::<u64>::empty(),
            p.executed() == Seq::<u64>::empty(),
            forall|i: int| 0 <= i < p.size() ==> !p.joined()[i],
    {
        let mut joined: Vec<bool> = Vec::new();
        let mut i: usize = 0;
        while i < size
            invariant
                i <= size,
                joined@.len() == i,
                forall|j: int| 0 <= j < i ==> !joined@[j],
            decreases size - i,
        {
            joined.push(false);
            i = i + 1;
        }
        PoolState { size, sender_open: true, queue: Vec::new(), executed: Vec::new(), joined }
    }

    /// Submits a job. While the send side is open the job is queued at the
    /// back; once the queue has been torn down the job is dropped — the
    /// caller logs it — and nothing else changes. Neither case panics.
    pub fn execute(&mut self, job: u64) -> (r: SubmitOutcome)
        requires
            old(self).wf(),
        ensures
            final(self).wf(),
            final(self).size() == old(self).size(),
            final(self).sender_open() == old(self).sender_open(),
            final(self).executed() == old(self).executed(),
            final(self).joined() == old(self).joined(),
            old(self).sender_open() ==> r == SubmitOutcome::Queued
                && final(self).queued() == old(self).queued().push(job)
                && final(self).accepted() == old(self).accepted().push(job),
            !old(self).sender_open() ==> r == SubmitOutcome::Dropped
                && final(self).queued() == old(self).queued()
                && final(self).accepted() == old(self).accepted(),
    {
        if self.sender_open {
            self.queue.push(job);
            proof {
                assert(self.accepted() =~= old(self).accepted().push(job));
            }
            SubmitOutcome::Queued
        } else {
            SubmitOutcome::Dropped
        }
    }

    /// One turn of a worker's loop. With a job at the front of the queue
    /// the worker takes it and runs it to completion; with an empty queue
    /// it blocks while the send side is open and stops once it is gone.
    /// Running a job moves it, exactly once and in FIFO order, from the
    /// queue to the executed record: the accepted jobs are unchanged.
    ///
    /// `job_panicked` reports whether running the job panicked. The worker
    /// catches such a panic — the caller logs it with the worker's id — and
    /// treats it as job completion: no clause below depends on the flag, so
    /// the transition is the same either way, the job still counts as
    /// executed, and the worker keeps consuming. A worker stops only from
    /// an empty queue whose send side is gone, never because a job
    /// panicked.
    #[allow(unused_variables)]
    pub fn worker_step(&mut self, job_panicked: bool) -> (r: WorkerStep)
        requires
            old(self).wf(),
        ensures
            final(self).wf(),
            final(self).size() == old(self).size(),
            final(self).sender_open() == old(self).sender_open(),
            final(self).joined() == old(self).joined(),
            final(self).accepted() == old(self).accepted(),
            old(self).queued().len() > 0 ==> r == WorkerStep::Ran(old(self).queued()[0])
                && final(self).queued() == old(self).queued().drop_first()
                && final(self).executed() == old(self).executed().push(old(self).queued()[0]),
            old(self).queued().len() == 0 ==> final(self).queued() == old(self).queued()
                && final(self).executed() == old(self).executed(),
            old(self).queued().len() == 0 && old(self).sender_open() ==> r == WorkerStep::Blocked,
            old(self).queued().len() == 0 && !old(self).sender_open() ==> r == WorkerStep::Stopped,
            old(self).queued().len() > 0 ==> r != WorkerStep::Stopped,
    {
        if self.queue.len() > 0 {
            let job = self.queue.remove(0);
            self.executed.push(job);
            proof {
                assert(self.queued() =~= old(self).queued().drop_first());
                assert(self.accepted() =~= old(self).accepted());
            }
            WorkerStep::Ran(job)
        } else if self.sender_open {
            WorkerStep::Blocked
        } else {
            WorkerStep::Stopped
        }
    }

    /// Tears down the queue's send side: the one shutdown signal the
    /// workers have. Closing an already-closed side is harmless — the
    /// close is idempotent.
    pub fn close_sender(&mut self)
        requires
            old(self).wf(),
        ensures
            final(self).wf(),
            !final(self).sender_open(),
            final(self).size() == old(self).size(),
            final(self).queued() == old(self).queued(),
            final(self).executed() == old(self).executed(),
            final(self).joined() == old(self).joined(),
    {
        self.sender_open = false;
    }

    /// Records that worker `id` has been joined. Whether or not the
    /// worker's last job panicked, the join succeeds: a panic is logged by
    /// the caller and never keeps a worker from being joined.
    #[allow(unused_variables)]
    pub fn join_worker(&mut self, id: usize, job_panicked: bool)
        requires
            old(self).wf(),
            id < old(self).size(),
        ensures
            final(self).wf(),
            final(self).size() == old(self).size(),
            final(self).sender_open() == old(self).sender_open(),
            final(self).queued() == old(self).queued(),
            final(self).executed() == old(self).executed(),
            final(self).joined() == old(self).joined().update(id as int, true),
    {
        self.joined[id] = true;
    }

    /// Coordinated shutdown: closes the send side, lets the workers drain
    /// the queue, then joins every worker. `panicked[id]` says whether
    /// worker `id`'s last job panicked; the outcome is the same either
    /// way — when teardown completes, the queue is empty, every accepted
    /// job has been run exactly once and in order, and every worker has
    /// been joined.
    pub fn teardown(&mut self, panicked: &Vec<bool>)
        requires
            old(self).wf(),
            panicked@.len() == old(self).size(),
        ensures
            final(self).wf(),
            !final(self).sender_open(),
            final(self).size() == old(self).size(),
            final(self).queued().len() == 0,
            final(self).executed() == old(self).executed() + old(self).queued(),
            final(self).accepted() == old(self).accepted(),
            forall|i: int| 0 <= i < final(self).size() ==> final(self).joined()[i],
    {
        self.close_sender();
        while self.queue.len() > 0
            invariant
                self.wf(),
                !self.sender_open(),
                self.size() == old(self).size(),
                self.joined() == old(self).joined(),
                self.accepted() == old(self).accepted(),
            decreases self.queued().len(),
        {
            let ghost pre = *self;
            let job = self.queue.remove(0);
            self.executed.push(job);
            proof {
                assert(self.accepted() =~= pre.accepted());
            }
        }
        proof {
            assert(self.executed() =~= self.accepted());
        }
        let size = self.size;
        let mut id: usize = 0;
        while id < size
            invariant
                self.wf(),
                !self.sender_open(),
                self.size() == old(self).size(),
                size == self.size(),
                id <= size,
                panicked@.len() == size,
                self.queued().len() == 0,
                self.executed() == old(self).executed() + old(self).queued(),
                forall|j: int| 0 <= j < id ==> self.joined()[j],
            decreases size - id,
        {
            self.join_worker(id, panicked[id]);
            id = id + 1;
        }
    }

    /// The fixed number of workers.
    pub fn worker_count(&self) -> (n: usize)
        ensures
            n == self.size(),
    {
        self.size
    }

    /// Whether the queue's send side is still open.
    pub fn is_sender_open(&self) -> (b: bool)
        ensures
            b == self.sender_open(),
    {
        self.sender_open
    }

    /// How many accepted jobs no worker has taken yet.
    pub fn queued_count(&self) -> (n: usize)
        ensures
            n == self.queued().len(),
    {
        self.queue.len()
    }

    /// The jobs workers have run, in the order they were taken.
    pub fn executed_jobs(&self) -> (r: &Vec<u64>)
        ensures
            r@ == self.executed(),
    {
        &self.executed
    }

    /// Whether worker `id` has been joined.
    pub fn worker_joined(&self, id: usize) -> (b: bool)
        requires
            self.wf(),
            id < self.size(),
        ensures
            b == self.joined()[id as int],
    {
        self.joined[id]
    }
}

/// Law: a drained queue means every accepted job has been executed — each
/// exactly once, in submission order. Teardown completes only in such a
/// state, so however many workers shared the queue, every job submitted
/// while the send side was open has run by the time the pool is gone.
pub proof fn lemma_drained_queue_ran_everything(p: PoolState)
    requires
        p.queued().len() == 0,
    ensures
        p.executed() == p.accepted(),
{
    assert(p.executed() =~= p.executed() + p.queued());
}

} // verus!
