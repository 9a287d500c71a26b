use std::collections::VecDeque;
use vstd::prelude::*;

use crate::error::SubmitError;

verus! {

/// What a worker finds when it asks the queue for a job.
pub enum Take<T> {
    /// The oldest pending job, now owned by the caller alone.
    Job(T),
    /// Nothing is pending but more jobs may still come: wait and ask again.
    Empty,
    /// The queue is closed and drained: no job will ever come again.
    Closed,
}

/// The abstract state of a queue.
///
/// `submitted` is every job ever accepted, in order; `delivered` is every job
/// ever handed to a worker, in order; `pending` is what is still waiting.
pub ghost struct QueueView<T> {
    pub pending: Seq<T>,
    pub closed: bool,
    pub submitted: Seq<T>,
    pub delivered: Seq<T>,
}

/// The hand-off between the single producer and the workers.
///
/// Once closed it accepts nothing more, while the jobs already in it stay
/// available until they are drained. Every accepted job is delivered once.
pub struct JobQueue<T> {
    jobs: VecDeque<T>,
    closed: bool,
    submitted: Ghost<Seq<T>>,
    delivered: Ghost<Seq<T>>,
}

impl<T> View for JobQueue<T> {
    type V = QueueView<T>;

    closed spec fn view(&self) -> QueueView<T> {
        QueueView {
            pending: self.jobs@,
            closed: self.closed,
            submitted: self.submitted@,
            delivered: self.delivered@,
        }
    }
}

impl<T> JobQueue<T> {
    /// Every accepted job has either been delivered or is still pending, and
    /// the order of acceptance is the order of delivery.
    pub open spec fn wf(&self) -> bool {
        self@.submitted == self@.delivered + self@.pending
    }

    /// An open, empty queue.
    pub fn new() -> (r: Self)
        ensures
            r.wf(),
            r@.pending == Seq::<T>::empty(),
            !r@.closed,
            r@.submitted == Seq::<T>::empty(),
            r@.delivered == Seq::<T>::empty(),
    {
        let r = JobQueue {
            jobs: VecDeque::new(),
            closed: false,
            submitted: Ghost(Seq::empty()),
            delivered: Ghost(Seq::empty()),
        };
        assert(r@.delivered + r@.pending =~= r@.submitted);
        r
    }

    /// Accepts `job` at the back of the queue, unless the queue is closed.
    pub fn push(&mut self, job: T) -> (r: Result<(), SubmitError>)
        requires
            old(self).wf(),
        ensures
            final(self).wf(),
            final(self)@.closed == old(self)@.closed,
            final(self)@.delivered == old(self)@.delivered,
            old(self)@.closed ==> r == Err::<(), SubmitError>(SubmitError::PoolClosed)
                && final(self)@ == old(self)@,
            !old(self)@.closed ==> r == Ok::<(), SubmitError>(())
                && final(self)@.pending == old(self)@.pending.push(job)
                && final(self)@.submitted == old(self)@.submitted.push(job),
    {
        if self.closed {
            return Err(SubmitError::PoolClosed);
        }
        self.submitted = Ghost(self.submitted@.push(job));
        self.jobs.push_back(job);
        assert(self@.delivered + self@.pending =~= self@.submitted);
        Ok(())
    }

    /// Hands out the oldest pending job; says `Closed` only once the queue
    /// is both closed and drained.
    pub fn take(&mut self) -> (r: Take<T>)
        requires
            old(self).wf(),
        ensures
            final(self).wf(),
            final(self)@.closed == old(self)@.closed,
            final(self)@.submitted == old(self)@.submitted,
            old(self)@.pending.len() > 0 ==> r == Take::Job(old(self)@.pending[0])
                && final(self)@.pending == old(self)@.pending.drop_first()
                && final(self)@.delivered == old(self)@.delivered.push(old(self)@.pending[0]),
            old(self)@.pending.len() == 0 ==> final(self)@ == old(self)@
                && (if old(self)@.closed { r is Closed } else { r is Empty }),
    {
        match self.jobs.pop_front() {
            Some(job) => {
                self.delivered = Ghost(self.delivered@.push(job));
                assert(self@.delivered + self@.pending =~= self@.submitted);
                Take::Job(job)
            },
            None => {
                if self.closed {
                    Take::Closed
                } else {
                    Take::Empty
                }
            },
        }
    }

    /// Refuses every later submission; pending jobs stay. Closing twice is
    /// the same as closing once.
    pub fn close(&mut self)
        requires
            old(self).wf(),
        ensures
            final(self).wf(),
            final(self)@.closed,
            final(self)@.pending == old(self)@.pending,
            final(self)@.submitted == old(self)@.submitted,
            final(self)@.delivered == old(self)@.delivered,
    {
        self.closed = true;
    }

    /// Whether the queue refuses submissions.
    pub fn is_closed(&self) -> (r: bool)
        ensures
            r == self@.closed,
    {
        self.closed
    }

    /// How many jobs wait to be taken.
    pub fn len(&self) -> (r: usize)
        ensures
            r == self@.pending.len(),
    {
        self.jobs.len()
    }
}

/// Once a queue is closed and drained, every job it ever accepted has been
/// handed out exactly once, and in the order in which it was accepted.
pub proof fn lemma_drained_delivers_each_once<T>(q: JobQueue<T>)
    requires
        q.wf(),
        q@.closed,
        q@.pending.len() == 0,
    ensures
        q@.delivered == q@.submitted,
{
    assert(q@.delivered + q@.pending =~= q@.delivered);
}

} // verus!
