//! Work units and the tasks that wrap them.

use std::future::Future;
use vstd::prelude::*;

verus! {

/// A unit of work together with the way it is to be executed.
///
/// A task has no behaviour of its own: it carries its unit and tells the
/// scheduler which of the two execution disciplines applies to it.
#[derive(Debug, PartialEq, Eq)]
pub enum Task<S, A> {
    /// A unit that runs to completion on the calling thread.
    Sync(S),
    /// A unit that suspends and resolves later.
    Async(A),
}

impl<S: Copy, A: Copy> Copy for Task<S, A> {

}

impl<S: Copy, A: Copy> Clone for Task<S, A> {
    fn clone(&self) -> (task: Self)
        ensures
            task == *self,
    {
        *self
    }
}

impl<S, A> Task<S, A> {
    /// Wraps a unit that runs to completion on the calling thread.
    pub fn from_sync(unit: S) -> (task: Self)
        ensures
            task == Task::<S, A>::Sync(unit),
    {
        Task::Sync(unit)
    }

    /// Wraps a unit that suspends and resolves later.
    pub fn from_async(unit: A) -> (task: Self)
        ensures
            task == Task::<S, A>::Async(unit),
    {
        Task::Async(unit)
    }
}

/// A unit of work that is executed on the calling thread.
///
/// Whatever the unit does is its own affair. A unit that fails has no way to
/// tell the scheduler other than to yield no continuation.
///
/// A scheduler works on synchronous units of one type. Units of different
/// makes are of one type once the caller has put them into an enum, or behind
/// a boxed trait object, and has implemented this trait for that.
pub trait SyncTask: Sized {
    /// The kind of suspending unit that may follow a unit of this kind.
    type Async;

    /// Executes the unit and returns the task to run after it, if any.
    fn execute(&self) -> Option<Task<Self, Self::Async>>;
}

/// A unit of work that suspends until an outside event resolves.
pub trait AsyncTask: Sized {
    /// The kind of synchronous unit that may follow a unit of this kind.
    type Sync;

    /// The handle to the suspended execution. It resolves to the task to run
    /// after this unit, if any.
    type Suspension: Future<Output = Option<Task<Self::Sync, Self>>> + Send;

    /// Starts the unit and returns the handle to its deferred completion.
    /// The caller is not blocked while the handle resolves.
    fn execute(&self) -> Self::Suspension;
}

} // verus!
