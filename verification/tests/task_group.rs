use std::sync::atomic::{AtomicUsize, Ordering};
use std::sync::Arc;
use std::time::Duration;

use nblock::idle::{Backoff, CreateIdle, Idle, IdleAction, IdleBox, IntoCreateIdle, NoOp, Yield};
use nblock::task::{IntoTask, Nonblock, Task};
use nblock::thread::{drive_for_handle, outcome_of, thread_stops, JoinHandleState, TaskGroup, TaskOutcome};

/// Idles a given number of times, then completes.
struct IdleThenComplete {
    idles_left: usize,
    drives: Arc<AtomicUsize>,
}

impl Task for IdleThenComplete {
    type Output = ();
    fn drives(&self, _after: Self, _result: Nonblock<()>) -> bool {
        true
    }
    fn drive(&mut self) -> Nonblock<()> {
        self.drives.fetch_add(1, Ordering::Relaxed);
        if self.idles_left == 0 {
            Nonblock::Complete(())
        } else {
            self.idles_left -= 1;
            Nonblock::Idle
        }
    }
}

enum Kind {
    Active,
    Idle,
}

struct Always(Kind);

impl Task for Always {
    type Output = ();
    fn drives(&self, _after: Self, _result: Nonblock<()>) -> bool {
        true
    }
    fn drive(&mut self) -> Nonblock<()> {
        match self.0 {
            Kind::Active => Nonblock::Active,
            Kind::Idle => Nonblock::Idle,
        }
    }
}

enum AnyTask {
    Counted(IdleThenComplete),
    Fixed(Always),
}

impl Task for AnyTask {
    type Output = ();
    fn drives(&self, _after: Self, _result: Nonblock<()>) -> bool {
        true
    }
    fn drive(&mut self) -> Nonblock<()> {
        match self {
            AnyTask::Counted(t) => t.drive(),
            AnyTask::Fixed(t) => t.drive(),
        }
    }
}

fn group(wind_down: Option<Duration>) -> TaskGroup<AnyTask> {
    TaskGroup::new(IdleBox::new(Yield), wind_down)
}

#[test]
fn task_idles_then_completes_and_leaves() {
    let drives = Arc::new(AtomicUsize::new(0));
    let mut g = group(Some(Duration::from_secs(1)));
    let task = AnyTask::Counted(IdleThenComplete { idles_left: 4, drives: Arc::clone(&drives) });
    let first = g.drive(vec![task], 0);
    assert_eq!(TaskOutcome::Active, first.outcome);
    assert_eq!(1, first.started);
    assert_eq!(0, first.completed);
    assert!(first.idle.is_none());
    for round in 0..3 {
        let report = g.drive(Vec::new(), 0);
        assert_eq!(TaskOutcome::Idle, report.outcome);
        assert!(matches!(report.idle, Some(IdleAction::Yield)));
        assert_eq!(round + 1, g.idle_iteration());
    }
    let last = g.drive(Vec::new(), 0);
    assert_eq!(1, last.completed);
    assert_eq!(0, g.len());
    assert_eq!(5, drives.load(Ordering::Relaxed));
}

#[test]
fn active_task_keeps_thread_from_idling() {
    let mut g = group(Some(Duration::from_secs(1)));
    let tasks = vec![AnyTask::Fixed(Always(Kind::Active)), AnyTask::Fixed(Always(Kind::Idle))];
    let report = g.drive(tasks, 0);
    assert_eq!(TaskOutcome::Active, report.outcome);
    for _ in 0..100 {
        let report = g.drive(Vec::new(), 0);
        assert_eq!(TaskOutcome::Active, report.outcome);
        assert!(report.idle.is_none());
        assert_eq!(0, g.idle_iteration());
    }
    assert_eq!(2, g.len());
}

#[test]
fn idle_iteration_resets_after_progress() {
    let drives = Arc::new(AtomicUsize::new(0));
    let mut g = group(None);
    g.drive(vec![AnyTask::Fixed(Always(Kind::Idle))], 0);
    g.drive(Vec::new(), 0);
    g.drive(Vec::new(), 0);
    assert_eq!(2, g.idle_iteration());
    let report = g.drive(
        vec![AnyTask::Counted(IdleThenComplete { idles_left: 1, drives: Arc::clone(&drives) })],
        0,
    );
    assert_eq!(TaskOutcome::Active, report.outcome);
    assert_eq!(0, g.idle_iteration());
}

#[test]
fn wind_down_waits_then_completes() {
    let drives = Arc::new(AtomicUsize::new(0));
    let mut g = group(Some(Duration::from_secs(1)));
    let report = g.drive(
        vec![AnyTask::Counted(IdleThenComplete { idles_left: 0, drives: Arc::clone(&drives) })],
        0,
    );
    // the only task completed in this round, so the wind-down starts now
    assert_eq!(TaskOutcome::Idle, report.outcome);
    assert!(report.idle.is_none());
    let waiting = g.drive(Vec::new(), 500_000_000);
    assert_eq!(TaskOutcome::Idle, waiting.outcome);
    assert!(waiting.idle.is_some());
    let still = g.drive(Vec::new(), 999_999_999);
    assert_eq!(TaskOutcome::Idle, still.outcome);
    let done = g.drive(Vec::new(), 1_000_000_000);
    assert_eq!(TaskOutcome::Complete, done.outcome);
    assert!(thread_stops(done.outcome, Some(1), true));
    assert!(!thread_stops(done.outcome, Some(1), false));
}

#[test]
fn zero_wind_down_completes_at_once() {
    let mut g = group(Some(Duration::ZERO));
    let report = g.drive(Vec::new(), 42);
    assert_eq!(TaskOutcome::Complete, report.outcome);
    assert!(thread_stops(report.outcome, None, false));
}

#[test]
fn no_wind_down_never_completes() {
    let mut g = group(None);
    for now in [0u128, 1, 1_000_000_000_000, u128::MAX] {
        let report = g.drive(Vec::new(), now);
        assert_eq!(TaskOutcome::Idle, report.outcome);
        assert!(report.idle.is_none());
    }
}

#[test]
fn new_task_restarts_the_wind_down() {
    let drives = Arc::new(AtomicUsize::new(0));
    let mut g = group(Some(Duration::from_secs(1)));
    g.drive(Vec::new(), 0);
    // a task arrives during the wind-down and completes two seconds later
    g.drive(vec![AnyTask::Counted(IdleThenComplete { idles_left: 5, drives: Arc::clone(&drives) })], 100);
    let mut now = 100;
    loop {
        now += 400_000_000;
        let report = g.drive(Vec::new(), now);
        if g.len() == 0 {
            assert_eq!(TaskOutcome::Idle, report.outcome);
            break;
        }
    }
    let before = g.drive(Vec::new(), now + 999_999_999);
    assert_eq!(TaskOutcome::Idle, before.outcome);
    let after = g.drive(Vec::new(), now + 1_000_000_000);
    assert_eq!(TaskOutcome::Complete, after.outcome);
}

#[test]
fn completed_tasks_leave_others_stay() {
    let drives = Arc::new(AtomicUsize::new(0));
    let mut g = group(None);
    let tasks = vec![
        AnyTask::Counted(IdleThenComplete { idles_left: 0, drives: Arc::clone(&drives) }),
        AnyTask::Fixed(Always(Kind::Idle)),
        AnyTask::Counted(IdleThenComplete { idles_left: 1, drives: Arc::clone(&drives) }),
    ];
    let report = g.drive(tasks, 0);
    assert_eq!(3, report.started);
    assert_eq!(1, report.completed);
    assert_eq!(2, g.len());
    let report = g.drive(Vec::new(), 0);
    assert_eq!(1, report.completed);
    assert_eq!(1, g.len());
    assert_eq!(TaskOutcome::Active, report.outcome);
    let report = g.drive(Vec::new(), 0);
    assert_eq!(TaskOutcome::Idle, report.outcome);
    assert!(report.idle.is_some());
}

#[test]
fn outcome_of_separates_the_output() {
    assert_eq!((TaskOutcome::Complete, Some(5)), outcome_of(Nonblock::Complete(5)));
    assert_eq!((TaskOutcome::Active, None), outcome_of(Nonblock::<u8>::Active));
    assert_eq!((TaskOutcome::Idle, None), outcome_of(Nonblock::<u8>::Idle));
}

#[test]
fn into_task_is_the_task_itself() {
    let mut task = Always(Kind::Active).into_task();
    assert!(matches!(task.drive(), Nonblock::Active));
    let _ = NoOp;
}

#[test]
fn task_completing_within_the_wind_down_restarts_it() {
    let drives = Arc::new(AtomicUsize::new(0));
    let mut g = group(Some(Duration::from_secs(1)));
    // the group is empty at 0, so it would wind down at one second
    assert_eq!(TaskOutcome::Idle, g.drive(Vec::new(), 0).outcome);
    // a task arrives half a second in and completes in the same round
    let report = g.drive(
        vec![AnyTask::Counted(IdleThenComplete { idles_left: 0, drives: Arc::clone(&drives) })],
        500_000_000,
    );
    assert_eq!(1, report.started);
    assert_eq!(1, report.completed);
    assert_eq!(TaskOutcome::Idle, report.outcome);
    // the wind-down counts again from the completion
    assert_eq!(TaskOutcome::Idle, g.drive(Vec::new(), 1_000_000_000).outcome);
    assert_eq!(TaskOutcome::Idle, g.drive(Vec::new(), 1_499_999_999).outcome);
    assert_eq!(TaskOutcome::Complete, g.drive(Vec::new(), 1_500_000_000).outcome);
}

/// Records every iteration it is called with.
struct Recorder(Arc<std::sync::Mutex<Vec<usize>>>);

impl Idle for Recorder {
    fn decision(&self, _iteration: usize) -> IdleAction {
        IdleAction::Spin
    }

    fn decision_after(&self, _idled: usize, _iteration: usize) -> IdleAction {
        IdleAction::Spin
    }

    fn idle(&mut self, iteration: usize) -> IdleAction {
        self.0.lock().unwrap().push(iteration);
        IdleAction::Spin
    }
}

#[test]
fn idle_strategy_sees_consecutive_iterations() {
    let seen = Arc::new(std::sync::Mutex::new(Vec::new()));
    let mut g: TaskGroup<AnyTask> = TaskGroup::new(IdleBox::new(Recorder(Arc::clone(&seen))), None);
    g.drive(vec![AnyTask::Fixed(Always(Kind::Idle))], 0);
    for _ in 0..3 {
        let report = g.drive(Vec::new(), 0);
        // the group hands back the strategy's decision for the thread to perform
        assert!(matches!(report.idle, Some(IdleAction::Spin)));
    }
    assert_eq!(vec![0, 1, 2], *seen.lock().unwrap());
    // progress resets the iteration for the next idle round
    g.drive(vec![AnyTask::Fixed(Always(Kind::Idle))], 0);
    g.drive(Vec::new(), 0);
    assert_eq!(vec![0, 1, 2, 0], *seen.lock().unwrap());
}

#[test]
fn cancelled_task_is_not_driven() {
    let drives = Arc::new(AtomicUsize::new(0));
    let mut task = IdleThenComplete { idles_left: 0, drives: Arc::clone(&drives) };
    let (outcome, output) = drive_for_handle(&mut task, JoinHandleState::Cancelled);
    assert_eq!(TaskOutcome::Complete, outcome);
    assert_eq!(None, output);
    assert_eq!(0, drives.load(Ordering::Relaxed));
}

#[test]
fn active_handle_drives_its_task_once() {
    let drives = Arc::new(AtomicUsize::new(0));
    let mut task = IdleThenComplete { idles_left: 1, drives: Arc::clone(&drives) };
    assert_eq!((TaskOutcome::Idle, None), drive_for_handle(&mut task, JoinHandleState::Active));
    assert_eq!((TaskOutcome::Complete, Some(())), drive_for_handle(&mut task, JoinHandleState::Orphaned));
    assert_eq!(2, drives.load(Ordering::Relaxed));
}

/// Fails the test if it is ever asked to idle.
struct MustNotIdle;

impl Idle for MustNotIdle {
    fn decision(&self, _iteration: usize) -> IdleAction {
        IdleAction::Spin
    }

    fn decision_after(&self, _idled: usize, _iteration: usize) -> IdleAction {
        IdleAction::Spin
    }

    fn idle(&mut self, _iteration: usize) -> IdleAction {
        panic!("idle called!")
    }
}

#[test]
fn single_active_task_keeps_the_strategy_unused() {
    let mut g: TaskGroup<AnyTask> = TaskGroup::new(IdleBox::new(MustNotIdle), Some(Duration::from_secs(1)));
    let tasks = vec![AnyTask::Fixed(Always(Kind::Active)), AnyTask::Fixed(Always(Kind::Idle))];
    assert_eq!(TaskOutcome::Active, g.drive(tasks, 0).outcome);
    assert_eq!(TaskOutcome::Active, g.drive(Vec::new(), 0).outcome);
}

#[test]
fn created_strategies_decide_as_the_configured_one() {
    let factory = Yield.into_create_idle();
    let mut created = factory.create_idle();
    assert!(matches!(created.idle(0), IdleAction::Yield));
    assert!(matches!(created.idle(5), IdleAction::Yield));
    let mut direct = Backoff::default().create_idle();
    assert!(matches!(direct.idle(0), IdleAction::Spin));
    assert!(matches!(direct.idle(40), IdleAction::Park(_)));
}
