//! nblock: a non-blocking task runtime whose scheduling, selection and
//! completion rules are specified and proved with Verus.
//!
//! This crate holds the verified core: idle strategies, thread selectors,
//! the per-thread task group, the join-handle state machine and the runtime
//! configuration. Threads, thread-locals and the atomics shared between
//! threads are driven by a thin host layer that calls into this crate.
use std::sync::atomic::AtomicBool;
use std::sync::Arc;
use std::time::Duration;
use vstd::prelude::*;

pub mod error;
pub mod hook;
pub mod idle;
pub mod selector;
pub mod task;
pub mod text;
pub mod thread;
pub mod time;

use crate::error::{BuilderError, TimedOut};
use crate::hook::{OnThreadStart, OnThreadStop};
use crate::idle::CreateIdle;
use crate::selector::{SelectorBox, ThreadSelect, ThreadSelector};
use crate::time::duration_nanos;

verus! {

/// Builds the configuration of a runtime.
///
/// ## Parameters and Defaults
///
/// - thread_selector: the strategy used to assign tasks to threads (no default, [`RuntimeBuilder::build`] returns an [`Err`] if not set)
/// - runflag: allows the user to pass in a shared runflag (defaults to a new [`AtomicBool`] set to true)
/// - thread_wind_down_duration: amount of time a shared thread stays alive after its tasks have completed (defaults to 1 second)
/// - thread_start_hook: called from within a runtime thread before any tasks are polled (defaults to [`None`])
/// - thread_stop_hook: called from within a runtime thread immediately before terminating (defaults to [`None`])
pub struct RuntimeBuilder {
    thread_selector: Option<SelectorBox>,
    runflag: Option<Arc<AtomicBool>>,
    thread_wind_down_duration: Option<Duration>,
    thread_start_hook: Option<Box<dyn OnThreadStart>>,
    thread_stop_hook: Option<Box<dyn OnThreadStop>>,
}

/// The settings of a runtime, as built by [`RuntimeBuilder::build`].
pub struct RuntimeConfig {
    pub thread_selector: SelectorBox,
    pub runflag: Arc<AtomicBool>,
    pub thread_wind_down_duration: Option<Duration>,
    pub thread_start_hook: Option<Box<dyn OnThreadStart>>,
    pub thread_stop_hook: Option<Box<dyn OnThreadStop>>,
}

impl RuntimeBuilder {
    pub closed spec fn has_thread_selector(&self) -> bool {
        self.thread_selector is Some
    }

    /// The thread selector that was set, if any.
    pub closed spec fn selector_spec(&self) -> Option<SelectorBox> {
        self.thread_selector
    }

    /// The thread start hook that was set, if any.
    pub closed spec fn start_hook_spec(&self) -> Option<Box<dyn OnThreadStart>> {
        self.thread_start_hook
    }

    /// The thread stop hook that was set, if any.
    pub closed spec fn stop_hook_spec(&self) -> Option<Box<dyn OnThreadStop>> {
        self.thread_stop_hook
    }

    pub closed spec fn runflag_spec(&self) -> Option<Arc<AtomicBool>> {
        self.runflag
    }

    pub closed spec fn wind_down_spec(&self) -> Option<Duration> {
        self.thread_wind_down_duration
    }

    pub closed spec fn has_start_hook(&self) -> bool {
        self.thread_start_hook is Some
    }

    pub closed spec fn has_stop_hook(&self) -> bool {
        self.thread_stop_hook is Some
    }

    /// The builder with nothing set but the one-second wind-down.
    pub fn new() -> (r: Self)
        ensures
            !r.has_thread_selector(),
            r.runflag_spec() is None,
            r.wind_down_spec() matches Some(d) && duration_nanos(d) == 1_000_000_000,
            !r.has_start_hook(),
            !r.has_stop_hook(),
    {
        RuntimeBuilder {
            thread_selector: None,
            runflag: None,
            thread_wind_down_duration: Some(Duration::from_secs(1)),
            thread_start_hook: None,
            thread_stop_hook: None,
        }
    }

    /// The strategy used to assign tasks to threads.
    pub fn with_thread_selector<T>(self, thread_selector: T) -> (r: Self) where
        T: ThreadSelector + Send + Sync + 'static,

        ensures
            r.selector_spec() == Some(SelectorBox(Box::new(thread_selector))),
            r.runflag_spec() == self.runflag_spec(),
            r.wind_down_spec() == self.wind_down_spec(),
            r.start_hook_spec() == self.start_hook_spec(),
            r.stop_hook_spec() == self.stop_hook_spec(),
    {
        let mut builder = self;
        builder.thread_selector = Some(SelectorBox(Box::new(thread_selector)));
        builder
    }

    /// The strategy used to assign tasks to threads.
    pub fn set_thread_selector<T>(&mut self, thread_selector: T) -> (r: &mut Self) where
        T: ThreadSelector + Send + Sync + 'static,

        ensures
            r.selector_spec() == Some(SelectorBox(Box::new(thread_selector))),
            r.runflag_spec() == old(self).runflag_spec(),
            r.wind_down_spec() == old(self).wind_down_spec(),
            r.start_hook_spec() == old(self).start_hook_spec(),
            r.stop_hook_spec() == old(self).stop_hook_spec(),
            *final(self) == *final(r),
    {
        self.thread_selector = Some(SelectorBox(Box::new(thread_selector)));
        self
    }

    /// Uses a shared runflag. When this flag is set to false, all tasks stop being polled.
    pub fn with_runflag(self, runflag: Arc<AtomicBool>) -> (r: Self)
        ensures
            r.selector_spec() == self.selector_spec(),
            r.runflag_spec() == Some(runflag),
            r.wind_down_spec() == self.wind_down_spec(),
            r.start_hook_spec() == self.start_hook_spec(),
            r.stop_hook_spec() == self.stop_hook_spec(),
    {
        let mut builder = self;
        builder.runflag = Some(runflag);
        builder
    }

    /// Uses a shared runflag. When this flag is set to false, all tasks stop being polled.
    pub fn set_runflag(&mut self, runflag: Arc<AtomicBool>) -> (r: &mut Self)
        ensures
            r.selector_spec() == old(self).selector_spec(),
            r.runflag_spec() == Some(runflag),
            r.wind_down_spec() == old(self).wind_down_spec(),
            r.start_hook_spec() == old(self).start_hook_spec(),
            r.stop_hook_spec() == old(self).stop_hook_spec(),
            *final(self) == *final(r),
    {
        self.runflag = Some(runflag);
        self
    }

    /// Amount of time a shared thread stays alive after its tasks have
    /// completed, waiting to accept new tasks. [`None`] never stops shared threads.
    pub fn with_thread_wind_down_duration(self, thread_wind_down_duration: Option<Duration>) -> (r: Self)
        ensures
            r.selector_spec() == self.selector_spec(),
            r.runflag_spec() == self.runflag_spec(),
            r.wind_down_spec() == thread_wind_down_duration,
            r.start_hook_spec() == self.start_hook_spec(),
            r.stop_hook_spec() == self.stop_hook_spec(),
    {
        let mut builder = self;
        builder.thread_wind_down_duration = thread_wind_down_duration;
        builder
    }

    /// Amount of time a shared thread stays alive after its tasks have
    /// completed, waiting to accept new tasks. [`None`] never stops shared threads.
    pub fn set_thread_wind_down_duration(&mut self, thread_wind_down_duration: Option<Duration>) -> (r: &mut Self)
        ensures
            r.selector_spec() == old(self).selector_spec(),
            r.runflag_spec() == old(self).runflag_spec(),
            r.wind_down_spec() == thread_wind_down_duration,
            r.start_hook_spec() == old(self).start_hook_spec(),
            r.stop_hook_spec() == old(self).stop_hook_spec(),
            *final(self) == *final(r),
    {
        self.thread_wind_down_duration = thread_wind_down_duration;
        self
    }

    /// Called from within a runtime thread before any tasks are polled.
    pub fn with_thread_start_hook<T, I>(self, thread_start_hook: I) -> (r: Self) where
        T: OnThreadStart + 'static,
        I: Into<Box<T>>,

        ensures
            r.selector_spec() == self.selector_spec(),
            r.runflag_spec() == self.runflag_spec(),
            r.wind_down_spec() == self.wind_down_spec(),
            exists|hook: Box<T>| #[trigger] call_ensures(I::into, (thread_start_hook,), hook) && {
                let stored: Option<Box<dyn OnThreadStart>> = Some(hook);
                r.start_hook_spec() == stored
            },
            r.stop_hook_spec() == self.stop_hook_spec(),
    {
        let mut builder = self;
        let hook: Box<T> = thread_start_hook.into();
        builder.thread_start_hook = Some(hook);
        builder
    }

    /// Called from within a runtime thread before any tasks are polled.
    pub fn set_thread_start_hook<T, I>(&mut self, thread_start_hook: I) -> (r: &mut Self) where
        T: OnThreadStart + 'static,
        I: Into<Box<T>>,

        ensures
            r.selector_spec() == old(self).selector_spec(),
            r.runflag_spec() == old(self).runflag_spec(),
            r.wind_down_spec() == old(self).wind_down_spec(),
            exists|hook: Box<T>| #[trigger] call_ensures(I::into, (thread_start_hook,), hook) && {
                let stored: Option<Box<dyn OnThreadStart>> = Some(hook);
                r.start_hook_spec() == stored
            },
            r.stop_hook_spec() == old(self).stop_hook_spec(),
            *final(self) == *final(r),
    {
        let hook: Box<T> = thread_start_hook.into();
        self.thread_start_hook = Some(hook);
        self
    }

    /// Called from within a runtime thread immediately before terminating.
    pub fn with_thread_stop_hook<T, I>(self, thread_stop_hook: I) -> (r: Self) where
        T: OnThreadStop + 'static,
        I: Into<Box<T>>,

        ensures
            r.selector_spec() == self.selector_spec(),
            r.runflag_spec() == self.runflag_spec(),
            r.wind_down_spec() == self.wind_down_spec(),
            r.start_hook_spec() == self.start_hook_spec(),
            exists|hook: Box<T>| #[trigger] call_ensures(I::into, (thread_stop_hook,), hook) && {
                let stored: Option<Box<dyn OnThreadStop>> = Some(hook);
                r.stop_hook_spec() == stored
            },
    {
        let mut builder = self;
        let hook: Box<T> = thread_stop_hook.into();
        builder.thread_stop_hook = Some(hook);
        builder
    }

    /// Called from within a runtime thread immediately before terminating.
    pub fn set_thread_stop_hook<T, I>(&mut self, thread_stop_hook: I) -> (r: &mut Self) where
        T: OnThreadStop + 'static,
        I: Into<Box<T>>,

        ensures
            r.selector_spec() == old(self).selector_spec(),
            r.runflag_spec() == old(self).runflag_spec(),
            r.wind_down_spec() == old(self).wind_down_spec(),
            r.start_hook_spec() == old(self).start_hook_spec(),
            exists|hook: Box<T>| #[trigger] call_ensures(I::into, (thread_stop_hook,), hook) && {
                let stored: Option<Box<dyn OnThreadStop>> = Some(hook);
                r.stop_hook_spec() == stored
            },
            *final(self) == *final(r),
    {
        let hook: Box<T> = thread_stop_hook.into();
        self.thread_stop_hook = Some(hook);
        self
    }

    /// Builds the runtime configuration; fails when no thread selector was set.
    pub fn build(self) -> (r: Result<RuntimeConfig, BuilderError>)
        ensures
            r is Err <==> !self.has_thread_selector(),
            r matches Err(e) ==> e.reason_spec() == "thread_selector not defined"@,
            r matches Ok(c) ==> {
                &&& self.selector_spec() == Some(c.thread_selector)
                &&& self.runflag_spec() matches Some(f) ==> c.runflag == f
                &&& c.thread_wind_down_duration == self.wind_down_spec()
                &&& c.thread_start_hook == self.start_hook_spec()
                &&& c.thread_stop_hook == self.stop_hook_spec()
            },
    {
        match self.thread_selector {
            None => {
                proof { reveal_strlit("thread_selector not defined"); }
                Err(BuilderError::from_reason("thread_selector not defined"))
            },
            Some(thread_selector) => {
                let runflag = match self.runflag {
                    Some(runflag) => runflag,
                    None => Arc::new(AtomicBool::new(true)),
                };
                Ok(RuntimeConfig {
                    thread_selector,
                    runflag,
                    thread_wind_down_duration: self.thread_wind_down_duration,
                    thread_start_hook: self.thread_start_hook,
                    thread_stop_hook: self.thread_stop_hook,
                })
            },
        }
    }
}

/// Whether a shutdown keeps waiting: tasks are still active and the
/// deadline, if any, has not been reached.
pub open spec fn shutdown_waits_spec(active_tasks: usize, now: u128, deadline: Option<u128>) -> bool {
    active_tasks > 0 && match deadline {
        Some(d) => now < d,
        None => true,
    }
}

/// Whether a shutdown keeps waiting at `now` with `active_tasks` still active.
pub fn shutdown_waits(active_tasks: usize, now: u128, deadline: Option<u128>) -> (r: bool)
    ensures
        r == shutdown_waits_spec(active_tasks, now, deadline),
{
    active_tasks > 0 && match deadline {
        Some(d) => now < d,
        None => true,
    }
}

/// A shutdown waits only while some task is active: with no active task it
/// stops whatever the clock and deadline; with no deadline it waits exactly
/// while a task is active; with a deadline it stops once the deadline is reached.
pub proof fn lemma_shutdown_waits_only_for_active_tasks(active_tasks: usize, now: u128, deadline: Option<u128>)
    ensures
        active_tasks == 0 ==> !shutdown_waits_spec(active_tasks, now, deadline),
        deadline is None ==> (shutdown_waits_spec(active_tasks, now, deadline) <==> active_tasks > 0),
        deadline matches Some(d) ==> (shutdown_waits_spec(active_tasks, now, deadline) <==> (active_tasks > 0
            && now < d)),
{
}

/// The result of a shutdown once it stopped waiting: done when no task is
/// active any more, timed out otherwise.
pub fn shutdown_result(active_tasks: usize) -> (r: Result<(), TimedOut>)
    ensures
        r is Ok <==> active_tasks == 0,
{
    if active_tasks == 0 {
        Ok(())
    } else {
        Err(TimedOut)
    }
}

/// The time by which a shutdown started at `now` gives up, in nanoseconds.
pub fn shutdown_deadline(now: u128, timeout: Option<Duration>) -> (r: Option<u128>)
    requires
        timeout matches Some(t) ==> now + duration_nanos(t) <= u128::MAX,
    ensures
        r == (match timeout {
            Some(t) => Some((now + duration_nanos(t)) as u128),
            None => None,
        }),
{
    match timeout {
        Some(t) => Some(now + t.as_nanos()),
        None => None,
    }
}

/// Whether joining a runtime keeps waiting: it is running and tasks are active.
pub fn join_waits(running: bool, active_tasks: usize) -> (r: bool)
    ensures
        r == (running && active_tasks > 0),
{
    running && active_tasks > 0
}


/// Where a spawned task goes.
pub enum SpawnPlan {
    /// A new dedicated thread, idling with the given strategy, runs the task alone.
    Dedicated(Arc<Box<dyn CreateIdle>>),
    /// The task joins the queue of the shared thread with this id, which is running.
    Queue(u64),
    /// A shared thread with this id is registered, given the task, and started
    /// idling with the given strategy.
    StartShared(u64, Arc<Box<dyn CreateIdle>>),
}

/// Decides where a task goes from the selector's choice: a dedicated
/// selection gets a new thread; a shared id joins the thread that runs under
/// it (`has_controller`) or starts one.
pub fn spawn_plan(select: ThreadSelect, has_controller: bool) -> (r: SpawnPlan)
    ensures
        select matches ThreadSelect::Dedicated(f) ==> r == SpawnPlan::Dedicated(f),
        select matches ThreadSelect::Shared(t, f) ==> r == (if has_controller {
            SpawnPlan::Queue(t)
        } else {
            SpawnPlan::StartShared(t, f)
        }),
{
    match select {
        ThreadSelect::Dedicated(idle) => SpawnPlan::Dedicated(idle),
        ThreadSelect::Shared(thread_id, idle) => {
            if has_controller {
                SpawnPlan::Queue(thread_id)
            } else {
                SpawnPlan::StartShared(thread_id, idle)
            }
        },
    }
}

/// The wind-down of a runtime thread: a shared thread (`thread_id` set)
/// uses the configured one; a dedicated thread has none, so it ends as soon
/// as its task is done.
pub fn thread_wind_down(thread_id: Option<u64>, configured: Option<Duration>) -> (r: Option<Duration>)
    ensures
        thread_id is Some ==> r == configured,
        thread_id is None ==> (r matches Some(d) && duration_nanos(d) == 0),
{
    match thread_id {
        Some(_) => configured,
        None => Some(Duration::from_secs(0)),
    }
}

} // verus!
