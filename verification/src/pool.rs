//! The thread pool: a fixed collection of workers around one shared queue.
//!
//! `ThreadPool` is the pool's coordination state over plain data. A job is
//! any value `J`: handing a job out through `worker_poll` stands for the
//! worker claiming it and running it to completion, which is why the pool
//! may record it as executed at that moment. The ghost sequences
//! `spec_submitted` and `spec_executed` track the pool's whole history, and
//! the central invariant says that the submitted jobs are exactly the
//! executed ones followed by the pending ones — so nothing is ever lost,
//! duplicated, or reordered by the queue.
//!
//! Teardown (`shutdown`) follows the mandatory two-phase protocol: close
//! the sending end first, let the workers drain what is pending, then join
//! every worker in construction order.

use vstd::prelude::*;
use vstd::std_specs::vec::vec_index_mut;

use crate::queue::Received;
use crate::queue::SharedQueue;

verus! {

/// The lifecycle of one worker.
#[derive(Clone, Copy, PartialEq, Eq, Structural, Debug)]
pub enum WorkerState {
    /// The worker's thread is looping: waiting for work or running a job.
    Running,
    /// The worker observed the queue's closure and its loop has ended; its
    /// thread handle has not been taken yet.
    Stopped,
    /// The worker's thread handle has been taken and waited on. Terminal.
    Joined,
}

/// One worker: a stable identifier, unique within its pool, plus the state
/// of the single thread bound to it.
#[derive(Clone, Copy, PartialEq, Eq, Structural, Debug)]
pub struct Worker {
    pub id: usize,
    pub state: WorkerState,
}

/// What a worker does after asking the queue for work.
pub enum WorkerAction<J> {
    /// Run this job, synchronously, to completion.
    Run(J),
    /// Keep waiting: the queue was open but empty.
    Wait,
    /// Leave the loop and let the thread terminate.
    Stop,
}

/// The decision at the heart of the worker loop: a received job is run,
/// an empty-but-open queue is waited on, and closure stops the worker.
pub fn worker_step<J>(m: Received<J>) -> (a: WorkerAction<J>)
    ensures
        (m matches Received::Job(j) ==> a == WorkerAction::Run(j)),
        m is Pending ==> a == WorkerAction::<J>::Wait,
        m is Closed ==> a == WorkerAction::<J>::Stop,
{
    match m {
        Received::Job(job) => WorkerAction::Run(job),
        Received::Pending => WorkerAction::Wait,
        Received::Closed => WorkerAction::Stop,
    }
}

/// A fixed-size pool of workers sharing one job queue.
pub struct ThreadPool<J> {
    workers: Vec<Worker>,
    queue: SharedQueue<J>,
    submitted: Ghost<Seq<J>>,
    executed: Ghost<Seq<J>>,
}

impl<J> ThreadPool<J> {
    /// The pool's workers, in construction order.
    pub closed spec fn spec_workers(self) -> Seq<Worker> {
        self.workers@
    }

    /// The jobs pending in the shared queue, oldest first.
    pub closed spec fn spec_queue(self) -> Seq<J> {
        self.queue@
    }

    /// Whether the sending end of the queue is still open.
    pub closed spec fn spec_open(self) -> bool {
        self.queue.is_open()
    }

    /// Every job ever submitted, in submission order.
    pub closed spec fn spec_submitted(self) -> Seq<J> {
        self.submitted@
    }

    /// Every job claimed by a worker so far, in claim order. A claimed job
    /// runs to completion, so this is the execution history.
    pub closed spec fn spec_executed(self) -> Seq<J> {
        self.executed@
    }

    /// Well-formedness, established by `new` and preserved by every
    /// operation:
    /// - conservation: the submitted jobs are exactly the executed ones
    ///   followed by the pending ones;
    /// - the worker count is fixed and positive, an empty pool could
    ///   never make progress;
    /// - worker identifiers are their positions, hence unique;
    /// - a worker only ever leaves its loop once the queue is closed and
    ///   drained, so no pending job is ever abandoned.
    pub closed spec fn wf(self) -> bool {
        &&& self.submitted@ == self.executed@ + self.queue@
        &&& self.workers@.len() > 0
        &&& forall|i: int|
            0 <= i < self.workers@.len() ==> (#[trigger] self.workers@[i]).id == i
        &&& forall|i: int|
            0 <= i < self.workers@.len() && !((#[trigger] self.workers@[i]).state is Running)
                ==> !self.queue.is_open() && self.queue@.len() == 0
    }

    /// Create a pool with `size` workers, every one immediately live and
    /// able to accept work, around a fresh, open, empty queue.
    ///
    /// An empty pool could never make progress, so `size` must be
    /// positive; the shell around this library must treat a zero size as a
    /// fatal caller error.
    pub fn new(size: usize) -> (pool: ThreadPool<J>)
        requires
            size > 0,
        ensures
            pool.wf(),
            pool.spec_workers().len() == size,
            forall|i: int|
                0 <= i < size ==> (#[trigger] pool.spec_workers()[i]) == (Worker {
                    id: i as usize,
                    state: WorkerState::Running,
                }),
            pool.spec_open(),
            pool.spec_queue() == Seq::<J>::empty(),
            pool.spec_submitted() == Seq::<J>::empty(),
            pool.spec_executed() == Seq::<J>::empty(),
    {
        let mut workers: Vec<Worker> = Vec::with_capacity(size);
        let mut id: usize = 0;
        while id < size
            invariant
                id <= size,
                workers@.len() == id,
                forall|i: int|
                    0 <= i < id ==> (#[trigger] workers@[i]) == (Worker {
                        id: i as usize,
                        state: WorkerState::Running,
                    }),
            decreases size - id,
        {
            workers.push(Worker { id, state: WorkerState::Running });
            id = id + 1;
        }
        ThreadPool {
            workers,
            queue: SharedQueue::new(),
            submitted: Ghost(Seq::empty()),
            executed: Ghost(Seq::empty()),
        }
    }

    /// Submit a job: enqueue it behind all pending ones, for delivery to
    /// exactly one worker.
    ///
    /// Submitting is only legitimate while the pool is not mid-teardown;
    /// a submission after the queue closed is a fatal caller error, so the
    /// contract excludes it.
    pub fn execute(&mut self, job: J)
        requires
            old(self).wf(),
            old(self).spec_open(),
        ensures
            final(self).wf(),
            final(self).spec_open(),
            final(self).spec_workers() == old(self).spec_workers(),
            final(self).spec_queue() == old(self).spec_queue().push(job),
            final(self).spec_submitted() == old(self).spec_submitted().push(job),
            final(self).spec_executed() == old(self).spec_executed(),
    {
        proof {
            self.submitted@ = self.submitted@.push(job);
        }
        let r = self.queue.send(job);
        match r {
            Ok(()) => {},
            Err(_) => {
                assert(false);
            },
        }
    }

    /// One turn of worker `worker_id`'s loop: ask the queue for work and
    /// decide. A handed-out job is recorded as executed — a claimed job
    /// always runs to completion on that worker. Observing closure of a
    /// drained queue stops the worker.
    pub fn worker_poll(&mut self, worker_id: usize) -> (a: WorkerAction<J>)
        requires
            old(self).wf(),
            worker_id < old(self).spec_workers().len(),
            old(self).spec_workers()[worker_id as int].state is Running,
        ensures
            final(self).wf(),
            final(self).spec_open() == old(self).spec_open(),
            final(self).spec_submitted() == old(self).spec_submitted(),
            old(self).spec_queue().len() > 0 ==> {
                &&& a == WorkerAction::Run(old(self).spec_queue()[0])
                &&& final(self).spec_queue() == old(self).spec_queue().subrange(
                    1,
                    old(self).spec_queue().len() as int,
                )
                &&& final(self).spec_executed() == old(self).spec_executed().push(
                    old(self).spec_queue()[0],
                )
                &&& final(self).spec_workers() == old(self).spec_workers()
            },
            old(self).spec_queue().len() == 0 && old(self).spec_open() ==> {
                &&& a == WorkerAction::<J>::Wait
                &&& final(self).spec_queue() == old(self).spec_queue()
                &&& final(self).spec_executed() == old(self).spec_executed()
                &&& final(self).spec_workers() == old(self).spec_workers()
            },
            old(self).spec_queue().len() == 0 && !old(self).spec_open() ==> {
                &&& a == WorkerAction::<J>::Stop
                &&& final(self).spec_queue() == old(self).spec_queue()
                &&& final(self).spec_executed() == old(self).spec_executed()
                &&& final(self).spec_workers() == old(self).spec_workers().update(
                    worker_id as int,
                    Worker { id: worker_id, state: WorkerState::Stopped },
                )
            },
    {
        match self.queue.receive() {
            Received::Job(job) => {
                proof {
                    self.executed@ = self.executed@.push(job);
                    let q = old(self).spec_queue();
                    let rest = q.subrange(1, q.len() as int);
                    assert(q =~= seq![q[0]] + rest);
                    assert(old(self).spec_executed() + q =~= old(self).spec_executed().push(q[0])
                        + rest);
                }
                WorkerAction::Run(job)
            },
            Received::Pending => WorkerAction::Wait,
            Received::Closed => {
                let w = vec_index_mut(&mut self.workers, worker_id);
                w.state = WorkerState::Stopped;
                WorkerAction::Stop
            },
        }
    }

    /// Tear the pool down, in the mandatory two-phase order: first close
    /// the sending end, so that no further job can be enqueued and every
    /// worker's receive eventually observes closure; then, once the
    /// workers have run the pending jobs and each worker's loop has
    /// observed closure and ended, take each worker's thread handle in
    /// construction order — each exactly once — and wait for its
    /// termination.
    ///
    /// The returned vector holds the jobs that were still pending when
    /// teardown began, oldest first: the workers run exactly these to
    /// completion while teardown waits for them. Afterwards every worker
    /// is joined and the execution history equals the submission history —
    /// every job submitted to the pool has run exactly once.
    pub fn shutdown(&mut self) -> (drained: Vec<J>)
        requires
            old(self).wf(),
            old(self).spec_open(),
        ensures
            final(self).wf(),
            !final(self).spec_open(),
            final(self).spec_queue().len() == 0,
            drained@ == old(self).spec_queue(),
            final(self).spec_submitted() == old(self).spec_submitted(),
            final(self).spec_executed() == old(self).spec_executed() + old(self).spec_queue(),
            final(self).spec_executed() == final(self).spec_submitted(),
            final(self).spec_workers().len() == old(self).spec_workers().len(),
            forall|i: int|
                0 <= i < final(self).spec_workers().len()
                    ==> (#[trigger] final(self).spec_workers()[i]) == (Worker {
                    id: i as usize,
                    state: WorkerState::Joined,
                }),
    {
        proof {
            assert(forall|k: int|
                0 <= k < self.workers@.len() ==> (#[trigger] self.workers@[k]).state
                    is Running);
        }
        let ghost ws0 = self.workers@;
        let ghost q0 = self.queue@;
        let ghost sub0 = self.submitted@;
        let ghost ex0 = self.executed@;
        self.queue.close();
        let n = self.workers.len();
        let mut drained: Vec<J> = Vec::new();
        let mut turn: usize = 0;
        // The workers, still looping, take turns claiming what is pending
        // and run it; each claim surfaces here, oldest job first.
        while self.queue.len() > 0
            invariant
                self.wf(),
                !self.queue.is_open(),
                n == self.workers@.len(),
                self.workers@ == ws0,
                self.submitted@ == sub0,
                self.executed@ == ex0 + drained@,
                q0 == drained@ + self.queue@,
                sub0 == ex0 + q0,
                turn < n,
                forall|k: int| 0 <= k < n ==> (#[trigger] ws0[k]).state is Running,
            decreases self.queue@.len(),
        {
            match self.worker_poll(turn) {
                WorkerAction::Run(job) => {
                    proof {
                        assert(q0 =~= drained@.push(job) + self.queue@);
                        assert(ex0 + drained@.push(job) =~= (ex0 + drained@).push(job));
                    }
                    drained.push(job);
                },
                WorkerAction::Wait => {
                    assert(false);
                },
                WorkerAction::Stop => {
                    assert(false);
                },
            }
            turn = (turn + 1) % n;
        }
        proof {
            assert(drained@ =~= q0);
        }
        let mut i: usize = 0;
        while i < n
            invariant
                self.wf(),
                n == self.workers@.len(),
                i <= n,
                !self.queue.is_open(),
                self.queue@.len() == 0,
                self.submitted@ == sub0,
                self.executed@ == ex0 + q0,
                sub0 == ex0 + q0,
                forall|k: int|
                    0 <= k < i ==> (#[trigger] self.workers@[k]) == (Worker {
                        id: k as usize,
                        state: WorkerState::Joined,
                    }),
                forall|k: int| i <= k < n ==> (#[trigger] self.workers@[k]).state is Running,
            decreases n - i,
        {
            // Worker `i`'s own loop observes the closed, drained queue
            // and ends.
            match self.worker_poll(i) {
                WorkerAction::Stop => {},
                WorkerAction::Run(_job) => {
                    assert(false);
                },
                WorkerAction::Wait => {
                    assert(false);
                },
            }
            // Take its thread handle — the only take — and wait for the
            // thread to terminate.
            let w = vec_index_mut(&mut self.workers, i);
            w.state = WorkerState::Joined;
            i = i + 1;
        }
        drained
    }

    /// How many workers the pool owns.
    pub fn worker_count(&self) -> (n: usize)
        ensures
            n == self.spec_workers().len(),
    {
        self.workers.len()
    }

    /// How many jobs are pending in the shared queue.
    pub fn pending_count(&self) -> (n: usize)
        ensures
            n == self.spec_queue().len(),
    {
        self.queue.len()
    }

    /// Whether every worker is live: looping and able to accept work.
    pub fn all_workers_live(&self) -> (r: bool)
        ensures
            r == (forall|i: int|
                0 <= i < self.spec_workers().len() ==> (#[trigger] self.spec_workers()[i]).state
                    is Running),
    {
        let n = self.workers.len();
        let mut i: usize = 0;
        while i < n
            invariant
                n == self.workers@.len(),
                i <= n,
                forall|k: int| 0 <= k < i ==> (#[trigger] self.workers@[k]).state is Running,
            decreases n - i,
        {
            if !(self.workers[i].state == WorkerState::Running) {
                return false;
            }
            i = i + 1;
        }
        true
    }

    /// Whether every worker's thread has terminated and been joined.
    pub fn all_workers_joined(&self) -> (r: bool)
        ensures
            r == (forall|i: int|
                0 <= i < self.spec_workers().len() ==> (#[trigger] self.spec_workers()[i]).state
                    is Joined),
    {
        let n = self.workers.len();
        let mut i: usize = 0;
        while i < n
            invariant
                n == self.workers@.len(),
                i <= n,
                forall|k: int| 0 <= k < i ==> (#[trigger] self.workers@[k]).state is Joined,
            decreases n - i,
        {
            if !(self.workers[i].state == WorkerState::Joined) {
                return false;
            }
            i = i + 1;
        }
        true
    }
}

/// How many times `j` occurs in `s`.
pub open spec fn occurrences<J>(s: Seq<J>, j: J) -> nat
    decreases s.len(),
{
    if s.len() == 0 {
        0
    } else {
        occurrences(s.drop_last(), j) + if s.last() == j {
            1nat
        } else {
            0nat
        }
    }
}

/// Occurrences distribute over concatenation.
pub proof fn lemma_occurrences_concat<J>(a: Seq<J>, b: Seq<J>, j: J)
    ensures
        occurrences(a + b, j) == occurrences(a, j) + occurrences(b, j),
    decreases b.len(),
{
    if b.len() == 0 {
        assert(a + b =~= a);
    } else {
        assert((a + b).drop_last() =~= a + b.drop_last());
        lemma_occurrences_concat(a, b.drop_last(), j);
    }
}

/// No job is lost and none is duplicated: in every well-formed pool, the
/// number of times a job has been executed plus the number of times it is
/// still pending equals the number of times it was submitted. A job
/// submitted once therefore runs at most once — and exactly once by the
/// time the queue has drained.
pub proof fn lemma_job_runs_exactly_once<J>(p: ThreadPool<J>, j: J)
    requires
        p.wf(),
    ensures
        occurrences(p.spec_executed(), j) + occurrences(p.spec_queue(), j) == occurrences(
            p.spec_submitted(),
            j,
        ),
{
    lemma_occurrences_concat(p.spec_executed(), p.spec_queue(), j);
}

/// The pool executes jobs in submission order: at every point the
/// execution history is a prefix of the submission history.
pub proof fn lemma_runs_in_submission_order<J>(p: ThreadPool<J>)
    requires
        p.wf(),
    ensures
        p.spec_executed().len() <= p.spec_submitted().len(),
        p.spec_executed() == p.spec_submitted().subrange(0, p.spec_executed().len() as int),
{
    assert(p.spec_submitted().subrange(0, p.spec_executed().len() as int) =~= p.spec_executed());
}

/// A well-formed pool whose queue has drained has executed exactly the
/// jobs submitted to it, each once, in submission order.
pub proof fn lemma_drained_pool_executed_all<J>(p: ThreadPool<J>)
    requires
        p.wf(),
        p.spec_queue().len() == 0,
    ensures
        p.spec_executed() == p.spec_submitted(),
{
    assert(p.spec_executed() + p.spec_queue() =~= p.spec_executed());
}

} // verus!
