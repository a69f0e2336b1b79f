use std::time::Duration;

use nblock::idle::{Backoff, CreateIdle, Idle, IdleAction, IntoCreateIdle, NoOp, Sleep, Yield};

fn park_nanos(action: IdleAction) -> u64 {
    match action {
        IdleAction::Park(n) => n,
        other => panic!("expected park, got {:?}", other),
    }
}

#[test]
fn noop_spins_and_yield_yields() {
    assert!(matches!(NoOp.idle(0), IdleAction::Spin));
    assert!(matches!(NoOp.idle(1000), IdleAction::Spin));
    assert!(matches!(Yield.idle(7), IdleAction::Yield));
}

#[test]
fn sleep_sleeps_for_its_duration() {
    let mut sleep = Sleep::new(Duration::from_millis(100));
    match sleep.idle(3) {
        IdleAction::Sleep(d) => assert_eq!(Duration::from_millis(100), d),
        other => panic!("expected sleep, got {:?}", other),
    }
}

#[test]
fn default_backoff_phases() {
    let mut backoff = Backoff::default();
    assert!(matches!(backoff.idle(0), IdleAction::Spin));
    assert!(matches!(backoff.idle(15), IdleAction::Spin));
    assert!(matches!(backoff.idle(16), IdleAction::Yield));
    assert!(matches!(backoff.idle(31), IdleAction::Yield));
    assert_eq!(1_000, park_nanos(backoff.idle(32)));
    assert_eq!(2_000, park_nanos(backoff.idle(33)));
    assert_eq!(500_000, park_nanos(backoff.idle(531)));
    assert_eq!(1_000_000, park_nanos(backoff.idle(1031)));
    assert_eq!(1_000_000, park_nanos(backoff.idle(5000)));
}

#[test]
fn backoff_park_grows_and_caps() {
    let mut backoff = Backoff::new(2, 3, Duration::from_nanos(10), Duration::from_nanos(45));
    assert!(matches!(backoff.idle(1), IdleAction::Spin));
    assert!(matches!(backoff.idle(2), IdleAction::Yield));
    assert!(matches!(backoff.idle(4), IdleAction::Yield));
    let parks: Vec<u64> = (5..12).map(|i| park_nanos(backoff.idle(i))).collect();
    assert_eq!(vec![10, 20, 30, 40, 45, 45, 45], parks);
    for pair in parks.windows(2) {
        assert!(pair[0] <= pair[1]);
    }
}

#[test]
fn backoff_saturates_huge_durations() {
    let mut backoff = Backoff::new(0, 0, Duration::new(u64::MAX, 0), Duration::new(u64::MAX, 999_999_999));
    assert_eq!(u64::MAX, park_nanos(backoff.idle(0)));
    assert_eq!(u64::MAX, park_nanos(backoff.idle(usize::MAX)));
}

#[test]
fn backoff_without_spin_or_yield_parks_at_once() {
    let mut backoff = Backoff::new(0, 0, Duration::from_micros(3), Duration::from_secs(1));
    assert_eq!(3_000, park_nanos(backoff.idle(0)));
    assert_eq!(6_000, park_nanos(backoff.idle(1)));
}

#[test]
fn create_idle_clones_the_strategy() {
    let factory = Backoff::default().into_create_idle();
    let mut first = factory.create_idle();
    let mut second = factory.create_idle();
    assert!(matches!(first.idle(16), IdleAction::Yield));
    assert_eq!(1_000, park_nanos(second.idle(32)));
    let mut from_noop = NoOp.create_idle();
    assert!(matches!(from_noop.idle(99), IdleAction::Spin));
}
