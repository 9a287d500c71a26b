use vstd::prelude::*;

use crate::queue::Take;

verus! {

/// Where a worker is in its loop.
#[derive(Debug, Clone, Copy, PartialEq, Eq, Structural)]
pub enum Phase {
    /// Between jobs: about to ask the queue for one.
    Idle,
    /// Running a job it took.
    Running,
    /// Left its loop for good: the queue was closed and drained.
    Exited,
}

/// What the worker's thread does next.
#[derive(Debug, Clone, Copy, PartialEq, Eq, Structural)]
pub enum WorkerStep {
    /// Run the job just taken, outside the queue's lock.
    Run,
    /// Wait for a job to be submitted, then ask again.
    Wait,
    /// Leave the loop and let the thread end.
    Exit,
}

/// How a job ended.
#[derive(Debug, Clone, Copy, PartialEq, Eq, Structural)]
pub enum JobOutcome {
    Completed,
    /// The job failed inside; the failure stays with that job.
    Failed,
}

/// The abstract state of a worker.
pub ghost struct WorkerView {
    pub id: nat,
    pub phase: Phase,
    /// Jobs run to their end, whether they completed or failed.
    pub finished: nat,
    /// Of those, the jobs that failed.
    pub failed: nat,
}

/// The decision half of a worker's loop.
pub struct Worker {
    id: usize,
    phase: Phase,
    finished: Ghost<nat>,
    failed: Ghost<nat>,
}

impl View for Worker {
    type V = WorkerView;

    closed spec fn view(&self) -> WorkerView {
        WorkerView { id: self.id as nat, phase: self.phase, finished: self.finished@, failed: self.failed@ }
    }
}

impl Worker {
    pub open spec fn wf(&self) -> bool {
        self@.failed <= self@.finished
    }

    /// A worker with the given id, idle and with no job run yet.
    pub fn new(id: usize) -> (r: Worker)
        ensures
            r.wf(),
            r@ == (WorkerView { id: id as nat, phase: Phase::Idle, finished: 0, failed: 0 }),
    {
        Worker { id, phase: Phase::Idle, finished: Ghost(0), failed: Ghost(0) }
    }

    /// The worker's id.
    pub fn id(&self) -> (r: usize)
        ensures
            r == self@.id,
    {
        self.id
    }

    /// The phase the worker is in.
    pub fn phase(&self) -> (r: Phase)
        ensures
            r == self@.phase,
    {
        self.phase
    }

    /// Decides on what the queue gave an idle worker: a job is run, an empty
    /// open queue is waited on, a closed and drained one ends the loop.
    pub fn on_take<T>(&mut self, taken: &Take<T>) -> (step: WorkerStep)
        requires
            old(self).wf(),
            old(self)@.phase == Phase::Idle,
        ensures
            final(self).wf(),
            final(self)@.id == old(self)@.id,
            final(self)@.finished == old(self)@.finished,
            final(self)@.failed == old(self)@.failed,
            match taken {
                Take::Job(_) => step == WorkerStep::Run && final(self)@.phase == Phase::Running,
                Take::Empty => step == WorkerStep::Wait && final(self)@.phase == Phase::Idle,
                Take::Closed => step == WorkerStep::Exit && final(self)@.phase == Phase::Exited,
            },
    {
        match taken {
            Take::Job(_) => {
                self.phase = Phase::Running;
                WorkerStep::Run
            },
            Take::Empty => WorkerStep::Wait,
            Take::Closed => {
                self.phase = Phase::Exited;
                WorkerStep::Exit
            },
        }
    }

    /// Records how the running job ended. Either way the worker is idle
    /// again and takes the next job: a failed job never ends the loop.
    pub fn on_finish(&mut self, outcome: JobOutcome)
        requires
            old(self).wf(),
            old(self)@.phase == Phase::Running,
        ensures
            final(self).wf(),
            final(self)@.id == old(self)@.id,
            final(self)@.phase == Phase::Idle,
            final(self)@.finished == old(self)@.finished + 1,
            final(self)@.failed == old(self)@.failed + if outcome == JobOutcome::Failed {
                1nat
            } else {
                0nat
            },
    {
        self.finished = Ghost(self.finished@ + 1);
        if outcome == JobOutcome::Failed {
            self.failed = Ghost(self.failed@ + 1);
        }
        self.phase = Phase::Idle;
    }
}

} // verus!
