use nblock::idle::{Backoff, NoOp};
use nblock::selector::{
    ConfiguredSelector, DedicatedThreadSelector, NamePattern, RoundRobinSelector, ThreadSelect,
    ThreadSelector,
};

fn shared_id(select: ThreadSelect) -> Option<u64> {
    match select {
        ThreadSelect::Shared(id, _) => Some(id),
        ThreadSelect::Dedicated(_) => None,
    }
}

#[test]
fn round_robin_alternates_between_two_threads() {
    let selector = RoundRobinSelector::builder()
        .with_thread_ids(vec![1, 2])
        .with_idle(Backoff::default())
        .build()
        .unwrap();
    let picks: Vec<Option<u64>> = ["t1", "t2", "t3", "t4", "t5"]
        .iter()
        .map(|name| shared_id(selector.select(name)))
        .collect();
    assert_eq!(vec![Some(1), Some(2), Some(1), Some(2), Some(1)], picks);
}

#[test]
fn round_robin_ids_are_sorted_and_unique() {
    let selector = RoundRobinSelector::builder()
        .add_thread_id(9)
        .add_thread_ids(vec![4, 9, 2, 4])
        .with_idle(NoOp)
        .build()
        .unwrap();
    let picks: Vec<Option<u64>> = (0..6).map(|seq| shared_id(selector.selection_at(seq))).collect();
    assert_eq!(vec![Some(2), Some(4), Some(9), Some(2), Some(4), Some(9)], picks);
}

#[test]
fn with_thread_ids_replaces_earlier_ids() {
    let selector = RoundRobinSelector::builder()
        .add_thread_id(7)
        .with_thread_ids(vec![3])
        .with_idle(NoOp)
        .build()
        .unwrap();
    assert_eq!(Some(3), shared_id(selector.select("a")));
    assert_eq!(Some(3), shared_id(selector.select("b")));
}

#[test]
fn round_robin_requires_idle() {
    let err = RoundRobinSelector::builder().add_thread_id(1).build().err().unwrap();
    assert_eq!("idle not defined", err.reason());
}

#[test]
fn empty_round_robin_cannot_select() {
    let selector = RoundRobinSelector::builder().with_idle(NoOp).build().unwrap();
    assert!(!selector.can_select("task"));
    let one = RoundRobinSelector::builder().with_idle(NoOp).add_thread_id(1).build().unwrap();
    assert!(one.can_select("task"));
}

#[test]
fn dedicated_selector_always_dedicates() {
    let selector = DedicatedThreadSelector::new(NoOp);
    assert!(selector.can_select("anything"));
    assert_eq!(None, shared_id(selector.select("anything")));
}

#[test]
fn thread_select_descriptions() {
    assert_eq!("Dedicated", ThreadSelect::dedicated(NoOp).describe());
    assert_eq!("Shared { thread_id: 1 }", ThreadSelect::shared(1, NoOp).describe());
    assert_eq!(
        "Shared { thread_id: 18446744073709551615 }",
        ThreadSelect::shared(u64::MAX, NoOp).describe()
    );
}

fn configured() -> ConfiguredSelector {
    ConfiguredSelector::builder()
        .with_thread_pattern(NamePattern::new("thread1_*").unwrap(), ThreadSelect::shared(1, NoOp))
        .with_thread_pattern(NamePattern::new("thread2_*").unwrap(), ThreadSelect::shared(2, NoOp))
        .with_pinned_task("thread1_special", ThreadSelect::shared(5, NoOp))
        .with_fallback(DedicatedThreadSelector::new(NoOp))
        .build()
        .unwrap()
}

#[test]
fn configured_patterns_select_in_order() {
    let selector = configured();
    assert_eq!(Some(1), shared_id(selector.select("thread1_task1")));
    assert_eq!(Some(1), shared_id(selector.select("thread1_task3")));
    assert_eq!(Some(2), shared_id(selector.select("thread2_task1")));
    assert_eq!(None, shared_id(selector.select("other")));
}

#[test]
fn configured_pinned_task_wins() {
    let selector = configured();
    assert_eq!(Some(5), shared_id(selector.select("thread1_special")));
    let repinned = ConfiguredSelector::builder()
        .with_pinned_task("job", ThreadSelect::shared(3, NoOp))
        .with_pinned_task(String::from("job"), ThreadSelect::shared(4, NoOp))
        .with_fallback(DedicatedThreadSelector::new(NoOp))
        .build()
        .unwrap();
    assert_eq!(Some(4), shared_id(repinned.select("job")));
}

#[test]
fn configured_falls_back_to_an_empty_round_robin_only_when_nothing_matches() {
    let empty = RoundRobinSelector::builder().with_idle(NoOp).build().unwrap();
    let selector = ConfiguredSelector::builder()
        .with_thread_pattern(NamePattern::new("^io").unwrap(), ThreadSelect::shared(8, NoOp))
        .with_fallback(empty)
        .build()
        .unwrap();
    assert!(selector.can_select("io-reader"));
    assert!(!selector.can_select("compute"));
    assert_eq!(Some(8), shared_id(selector.select("io-reader")));
}

#[test]
fn configured_requires_fallback() {
    let err = ConfiguredSelector::builder().build().err().unwrap();
    assert_eq!("fallback selector not defined", err.reason());
}

#[test]
fn name_pattern_compiles_and_matches() {
    let pattern = NamePattern::new("^t[0-9]+$").unwrap();
    assert_eq!("^t[0-9]+$", pattern.as_str());
    assert!(pattern.is_match("t12"));
    assert!(!pattern.is_match("t12x"));
    assert!(NamePattern::new("(unclosed").is_err());
}

#[test]
fn configured_sends_unmatched_names_to_the_given_fallback() {
    let fallback = RoundRobinSelector::builder().with_idle(NoOp).with_thread_ids(vec![7]).build().unwrap();
    let selector = ConfiguredSelector::builder()
        .with_thread_pattern(NamePattern::new("^io").unwrap(), ThreadSelect::shared(8, NoOp))
        .with_fallback(fallback)
        .build()
        .unwrap();
    assert_eq!(Some(8), shared_id(selector.select("io-reader")));
    assert_eq!(Some(7), shared_id(selector.select("compute")));
    assert_eq!(Some(7), shared_id(selector.select("other")));
}

#[test]
fn adding_ids_in_either_order_builds_the_same_rotation() {
    let one = RoundRobinSelector::builder()
        .with_idle(NoOp)
        .add_thread_ids(vec![3, 1])
        .add_thread_ids(vec![2, 3])
        .build()
        .unwrap();
    let other = RoundRobinSelector::builder()
        .with_idle(NoOp)
        .add_thread_ids(vec![2, 3])
        .add_thread_ids(vec![3, 1])
        .build()
        .unwrap();
    for seq in 0..6 {
        assert_eq!(shared_id(one.selection_at(seq)), shared_id(other.selection_at(seq)));
    }
    assert_eq!(Some(1), shared_id(one.selection_at(0)));
    assert_eq!(Some(2), shared_id(one.selection_at(1)));
    assert_eq!(Some(3), shared_id(one.selection_at(2)));
}
