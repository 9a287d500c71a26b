//! A fixed-size worker pool with a stop-aware dispatcher.
//!
//! The decisions of the pool live here and are verified: the job queue that
//! workers drain, the roster of workers and the order in which they are
//! joined, the state of each worker, and the dispatcher that merges work
//! items with a one-shot stop event. Threads, locks and signals are driven
//! by the caller, which hands the outcome of each blocking step back in.
use vstd::prelude::*;

pub mod dispatch;
pub mod error;
pub mod http;
pub mod pool;
pub mod queue;
pub mod worker;

pub use dispatch::{DispatchAction, DispatchEvent, Dispatcher};
pub use error::{PoolCreationError, SubmitError};
pub use http::Route;
pub use pool::Roster;
pub use queue::{JobQueue, Take};
pub use worker::{JobOutcome, Phase, Worker, WorkerStep};
