use vstd::prelude::*;

verus! {

/// Why a pool could not be built.
#[derive(Debug, Clone, Copy, PartialEq, Eq, Structural)]
pub enum PoolCreationError {
    /// A pool needs at least one worker.
    InvalidSize,
}

/// Why a job was not accepted.
#[derive(Debug, Clone, Copy, PartialEq, Eq, Structural)]
pub enum SubmitError {
    /// The pool has begun shutting down; the job was not enqueued.
    PoolClosed,
}

} // verus!
