//! Hook traits through which a runtime reports to its users.
use vstd::prelude::*;

verus! {

/// Called when a task is complete, set by `JoinHandle::on_complete`.
pub trait OnTaskComplete<T>: Send {
    /// Whether this hook, in its current state, takes `output` when called with it.
    spec fn takes(&self, output: T) -> bool;

    fn on_task_complete(&mut self, output: T)
        ensures
            old(self).takes(output),
    ;
}

/// Called when a new runtime thread is started, before any task is polled.
pub trait OnThreadStart: Send + Sync {
    fn on_thread_start(&self, thread_id: Option<u64>);
}

/// Called when a runtime thread stops, after all tasks and wind-down have completed.
pub trait OnThreadStop: Send + Sync {
    fn on_thread_stop(&self, thread_id: Option<u64>);
}

} // verus!
