//! Definitions for task-related traits and types.
use vstd::prelude::*;

verus! {

/// The result of a single call to [`Task::drive`].
///
/// This is similar to a `Future` in async code, except it differentiates
/// between a task being `Idle` or `Active` to impact duty-cycles accordingly.
pub enum Nonblock<T> {
    Active,
    Complete(T),
    Idle,
}

/// Represents a single non-blocking task to be spawned on a runtime.
pub trait Task: Sized {
    type Output;

    /// The relation between a state, the state one `drive` leads to and the
    /// result that `drive` returns.
    spec fn drives(&self, after: Self, result: Nonblock<Self::Output>) -> bool;

    fn drive(&mut self) -> (r: Nonblock<Self::Output>)
        ensures
            old(self).drives(*final(self), r),
    ;
}

/// What a task that drives a future returns for one poll: the future's
/// output once it is ready (`Some`), otherwise `Active`, so that the task is
/// polled again in the next round.
pub fn poll_result<O>(ready: Option<O>) -> (r: Nonblock<O>)
    ensures
        r == (match ready {
            Some(o) => Nonblock::Complete(o),
            None => Nonblock::<O>::Active,
        }),
{
    match ready {
        Some(o) => Nonblock::Complete(o),
        None => Nonblock::Active,
    }
}

/// Something that can be converted into a [`Task`].
///
/// Every `Task` is trivially an `IntoTask`.
pub trait IntoTask {
    type Task: Task;

    fn into_task(self) -> Self::Task;
}

impl<T: Task> IntoTask for T {
    type Task = T;

    fn into_task(self) -> (r: T)
        ensures
            r == self,
    {
        self
    }
}

} // verus!
