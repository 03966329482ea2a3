//! The shared job queue: the hand-off structure between submitters and
//! workers.
//!
//! Jobs travel first-in, first-out, and every job is handed to exactly one
//! receiver. The queue can be closed exactly once; after that, sending
//! fails, pending jobs are still delivered, and once it has drained every
//! further receive reports closure.
//!
//! Exclusive (`&mut`) access to the queue stands for the mutual exclusion
//! that the running system enforces around it: at any instant at most one
//! party is sending or receiving.

use vstd::prelude::*;

verus! {

/// What a worker observes when it asks the queue for work.
pub enum Received<J> {
    /// A job, handed to this caller alone and removed from the queue.
    Job(J),
    /// The queue is open but momentarily empty; the worker keeps waiting.
    /// A blocking receive is this observation, repeated until work arrives.
    Pending,
    /// The sending end is closed and the queue has drained; the worker
    /// will never be handed work again.
    Closed,
}

/// A first-in, first-out queue of jobs with a sending side that can be
/// closed exactly once.
///
/// The view of a queue is the sequence of jobs it currently holds, oldest
/// first; `is_open` says whether sending is still possible.
pub struct SharedQueue<J> {
    items: Vec<J>,
    open: bool,
}

impl<J> View for SharedQueue<J> {
    type V = Seq<J>;

    closed spec fn view(&self) -> Seq<J> {
        self.items@
    }
}

impl<J> SharedQueue<J> {
    /// Whether the sending side is still open.
    pub closed spec fn is_open(&self) -> bool {
        self.open
    }

    /// A fresh, empty, open queue.
    pub fn new() -> (q: SharedQueue<J>)
        ensures
            q@ == Seq::<J>::empty(),
            q.is_open(),
    {
        SharedQueue { items: Vec::new(), open: true }
    }

    /// Enqueue a job behind all pending ones. Fails, returning the job to
    /// the caller, exactly when the queue has been closed.
    pub fn send(&mut self, job: J) -> (r: Result<(), J>)
        ensures
            final(self).is_open() == old(self).is_open(),
            old(self).is_open() ==> r == Ok::<(), J>(()) && final(self)@ == old(self)@.push(job),
            !old(self).is_open() ==> r == Err::<(), J>(job) && final(self)@ == old(self)@,
    {
        if self.open {
            self.items.push(job);
            Ok(())
        } else {
            Err(job)
        }
    }

    /// Close the sending side. Pending jobs stay and will still be
    /// delivered; no new job can be enqueued afterwards.
    pub fn close(&mut self)
        ensures
            final(self)@ == old(self)@,
            !final(self).is_open(),
    {
        self.open = false;
    }

    /// Take the oldest pending job, if any. On an empty queue, report
    /// `Pending` while the queue is open and `Closed` once it is not;
    /// neither changes the queue.
    pub fn receive(&mut self) -> (m: Received<J>)
        ensures
            final(self).is_open() == old(self).is_open(),
            old(self)@.len() > 0 ==> m == Received::<J>::Job(old(self)@[0]) && final(self)@ == old(self)@.subrange(
                1,
                old(self)@.len() as int,
            ),
            old(self)@.len() == 0 ==> final(self)@ == old(self)@ && m == (if old(self).is_open() {
                Received::<J>::Pending
            } else {
                Received::<J>::Closed
            }),
    {
        if self.items.len() > 0 {
            let job = self.items.remove(0);
            Received::Job(job)
        } else if self.open {
            Received::Pending
        } else {
            Received::Closed
        }
    }

    /// How many jobs are pending.
    pub fn len(&self) -> (n: usize)
        ensures
            n == self@.len(),
    {
        self.items.len()
    }
}

} // verus!
