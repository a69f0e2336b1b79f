use std::sync::atomic::{AtomicBool, Ordering};
use std::sync::Arc;
use std::time::Duration;

use nblock::error::{BuilderError, TimedOut};
use nblock::hook::{OnThreadStart, OnThreadStop};
use nblock::idle::NoOp;
use nblock::selector::{DedicatedThreadSelector, RoundRobinSelector, ThreadSelector};
use nblock::task::{poll_result, Nonblock};
use nblock::text::decimal;
use nblock::thread::{nonblock_of, runtime_name, thread_name, TaskOutcome};
use nblock::selector::ThreadSelect;
use nblock::idle::IntoCreateIdle;
use nblock::{
    join_waits, shutdown_deadline, shutdown_result, shutdown_waits, spawn_plan, thread_wind_down, RuntimeBuilder, SpawnPlan,
};

struct Quiet;

impl OnThreadStart for Quiet {
    fn on_thread_start(&self, _thread_id: Option<u64>) {}
}

impl OnThreadStop for Quiet {
    fn on_thread_stop(&self, _thread_id: Option<u64>) {}
}

#[test]
fn build_requires_thread_selector() {
    let err = RuntimeBuilder::new().build().err().unwrap();
    assert_eq!("thread_selector not defined", err.reason());
    assert_eq!("BuilderError: thread_selector not defined", err.message());
}

#[test]
fn build_applies_defaults() {
    let config = RuntimeBuilder::new()
        .with_thread_selector(DedicatedThreadSelector::new(NoOp))
        .build()
        .unwrap();
    assert_eq!(Some(Duration::from_secs(1)), config.thread_wind_down_duration);
    assert!(config.runflag.load(Ordering::Relaxed));
    assert!(config.thread_start_hook.is_none());
    assert!(config.thread_stop_hook.is_none());
}

#[test]
fn build_keeps_given_settings() {
    let runflag = Arc::new(AtomicBool::new(false));
    let mut builder = RuntimeBuilder::new();
    builder
        .set_thread_selector(DedicatedThreadSelector::new(NoOp))
        .set_runflag(Arc::clone(&runflag))
        .set_thread_wind_down_duration(None)
        .set_thread_start_hook(Quiet)
        .set_thread_stop_hook(Quiet);
    let config = builder.build().unwrap();
    assert!(Arc::ptr_eq(&runflag, &config.runflag));
    assert_eq!(None, config.thread_wind_down_duration);
    assert!(config.thread_start_hook.is_some());
    assert!(config.thread_stop_hook.is_some());
}

#[test]
fn with_builders_chain() {
    let config = RuntimeBuilder::new()
        .with_runflag(Arc::new(AtomicBool::new(true)))
        .with_thread_wind_down_duration(Some(Duration::from_millis(5)))
        .with_thread_start_hook(Quiet)
        .with_thread_stop_hook(Quiet)
        .with_thread_selector(DedicatedThreadSelector::new(NoOp))
        .build()
        .unwrap();
    assert_eq!(Some(Duration::from_millis(5)), config.thread_wind_down_duration);
    assert!(config.thread_start_hook.is_some());
}

#[test]
fn builder_error_reason_and_message() {
    let err = BuilderError::new("custom reason");
    assert_eq!("custom reason", err.reason());
    assert_eq!("BuilderError: custom reason", err.message());
    assert_eq!("TimedOut", TimedOut.message());
}

#[test]
fn thread_names() {
    assert_eq!("nblock", runtime_name(1));
    assert_eq!("nblock-2", runtime_name(2));
    assert_eq!("nblock thread-1", thread_name(1, "t1", Some(1)));
    assert_eq!("nblock task t1", thread_name(1, "t1", None));
    assert_eq!("nblock-12 thread-305", thread_name(12, "ignored", Some(305)));
    assert_eq!("nblock-3 task mytask", thread_name(3, "mytask", None));
}

#[test]
fn decimal_rendering() {
    assert_eq!("0", decimal(0));
    assert_eq!("7", decimal(7));
    assert_eq!("10", decimal(10));
    assert_eq!("1234567890", decimal(1234567890));
    assert_eq!("18446744073709551615", decimal(u64::MAX));
}

#[test]
fn shutdown_waits_while_tasks_active_and_before_deadline() {
    let deadline = shutdown_deadline(100, Some(Duration::from_nanos(50)));
    assert_eq!(Some(150), deadline);
    assert!(shutdown_waits(2, 149, deadline));
    assert!(!shutdown_waits(2, 150, deadline));
    assert!(!shutdown_waits(0, 0, deadline));
    assert!(shutdown_waits(1, u128::MAX, None));
    assert_eq!(None, shutdown_deadline(100, None));
}

#[test]
fn shutdown_result_times_out_with_active_tasks() {
    assert_eq!(Ok(()), shutdown_result(0));
    assert_eq!(Err(TimedOut), shutdown_result(3));
}

#[test]
fn join_waits_while_running_with_tasks() {
    assert!(join_waits(true, 1));
    assert!(!join_waits(false, 1));
    assert!(!join_waits(true, 0));
}

#[test]
fn builder_error_keeps_a_str_reason() {
    let reason: &str = "pool exhausted";
    assert_eq!(reason, BuilderError::new(reason).reason());
    assert_eq!("owned", BuilderError::new("owned".to_owned()).reason());
}

#[test]
fn spawn_plan_follows_the_selection() {
    let idle = NoOp.into_create_idle();
    assert!(matches!(spawn_plan(ThreadSelect::Dedicated(Arc::clone(&idle)), true), SpawnPlan::Dedicated(_)));
    assert!(matches!(spawn_plan(ThreadSelect::Shared(4, Arc::clone(&idle)), true), SpawnPlan::Queue(4)));
    assert!(matches!(spawn_plan(ThreadSelect::Shared(4, idle), false), SpawnPlan::StartShared(4, _)));
}

#[test]
fn dedicated_threads_do_not_wind_down() {
    let configured = Some(Duration::from_secs(3));
    assert_eq!(Some(Duration::ZERO), thread_wind_down(None, configured));
    assert_eq!(configured, thread_wind_down(Some(2), configured));
    assert_eq!(None, thread_wind_down(Some(2), None));
}

/// Records the thread ids it is started and stopped with.
struct Recording(Arc<std::sync::Mutex<Vec<(bool, Option<u64>)>>>);

impl OnThreadStart for Recording {
    fn on_thread_start(&self, thread_id: Option<u64>) {
        self.0.lock().unwrap().push((true, thread_id));
    }
}

impl OnThreadStop for Recording {
    fn on_thread_stop(&self, thread_id: Option<u64>) {
        self.0.lock().unwrap().push((false, thread_id));
    }
}

#[test]
fn build_keeps_the_given_hooks_and_latest_selector() {
    let seen = Arc::new(std::sync::Mutex::new(Vec::new()));
    let config = RuntimeBuilder::new()
        .with_thread_start_hook(Quiet)
        .with_thread_start_hook(Recording(Arc::clone(&seen)))
        .with_thread_stop_hook(Recording(Arc::clone(&seen)))
        .with_thread_selector(DedicatedThreadSelector::new(NoOp))
        .with_thread_selector(RoundRobinSelector::builder().with_idle(NoOp).with_thread_ids(vec![3]).build().unwrap())
        .build()
        .unwrap();
    config.thread_start_hook.as_ref().unwrap().on_thread_start(Some(3));
    config.thread_stop_hook.as_ref().unwrap().on_thread_stop(None);
    assert_eq!(vec![(true, Some(3)), (false, None)], *seen.lock().unwrap());
    assert!(matches!(config.thread_selector.0.select("any"), ThreadSelect::Shared(3, _)));
}

#[test]
fn results_stand_for_outcomes() {
    assert!(matches!(poll_result(Some(4)), Nonblock::Complete(4)));
    assert!(matches!(poll_result::<u8>(None), Nonblock::Active));
    assert!(matches!(nonblock_of(TaskOutcome::Active), Nonblock::Active));
    assert!(matches!(nonblock_of(TaskOutcome::Idle), Nonblock::Idle));
    assert!(matches!(nonblock_of(TaskOutcome::Complete), Nonblock::Complete(())));
}
