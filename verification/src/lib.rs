//! A continuation-style task scheduler.
//!
//! Work is kept in a queue of [`Task`]s. Each task wraps one work unit, either
//! one that runs to completion on the calling thread ([`SyncTask`]) or one
//! that suspends until an outside event resolves ([`AsyncTask`]). A unit may
//! yield a continuation: the task that follows it, which goes to the tail of
//! the queue. The queue itself is any store that offers the two operations of
//! [`VecStructure`].
//!
//! The [`Scheduler`] owns the queue. Everything it does is stated over the
//! queue as a sequence of tasks, oldest first.

pub mod queue;
pub mod scheduler;
pub mod task;

pub use queue::{BoundedQueue, StorageError, VecStructure};
pub use scheduler::{
    appended, kept, one_turn, pushed_all, turn_on, turns, turns_without_continuation, Scheduler,
    Turn,
};
pub use task::{AsyncTask, SyncTask, Task};
