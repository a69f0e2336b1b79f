//! Idle strategies: what a thread does when none of its tasks made progress.
//!
//! An [`Idle`] strategy decides; the host thread carries the decision out
//! (spinning, yielding, sleeping or parking).
use std::sync::Arc;
use std::time::Duration;
use vstd::prelude::*;

use crate::time::{duration_nanos, saturate_nanos, saturate_nanos_spec};

verus! {

/// What a thread should do for one idle iteration.
#[derive(Debug, Clone, Copy)]
pub enum IdleAction {
    /// Return immediately (busy spin).
    Spin,
    /// Yield the thread's time slice.
    Yield,
    /// Sleep for the given duration.
    Sleep(Duration),
    /// Park the thread for at most the given number of nanoseconds.
    Park(u64),
}

/// Used to throttle CPU usage when all tasks on a thread are in an idle state.
pub trait Idle {
    /// The action this strategy, in its current state, decides on for the iteration.
    spec fn decision(&self, iteration: usize) -> IdleAction;

    /// The action this strategy decides on for `iteration` once it has idled
    /// for iteration `idled` from its current state.
    spec fn decision_after(&self, idled: usize, iteration: usize) -> IdleAction;

    /// Called repeatedly to throttle CPU usage, incrementing `iteration` with each call.
    /// When a task becomes active again, `iteration` resets to 0 the next time it is called.
    fn idle(&mut self, iteration: usize) -> (r: IdleAction)
        ensures
            r == old(self).decision(iteration),
            forall|i: usize| #[trigger] final(self).decision(i) == old(self).decision_after(iteration, i),
    ;
}

/// Used to instantiate instances of [`Idle`].
///
/// Any `Idle` impl that is `Clone + Send + Sync` implements `CreateIdle` by cloning itself.
pub trait CreateIdle: Send + Sync {
    /// Whether `idle` is a strategy that this factory may create.
    spec fn creates(&self, idle: IdleBox) -> bool;

    fn create_idle(&self) -> (r: IdleBox)
        ensures
            self.creates(r),
    ;
}

/// An owned, type-erased [`Idle`] strategy, as created by [`CreateIdle::create_idle`].
pub struct IdleBox {
    pub inner: Box<dyn Idle>,
}

impl IdleBox {
    /// The action the boxed strategy, in its current state, decides on for the iteration.
    pub closed spec fn decision(&self, iteration: usize) -> IdleAction {
        self.inner.decision(iteration)
    }

    /// The action the boxed strategy decides on for `iteration` once it has
    /// idled for iteration `idled` from its current state.
    pub closed spec fn decision_after(&self, idled: usize, iteration: usize) -> IdleAction {
        self.inner.decision_after(idled, iteration)
    }

    /// Boxes the given strategy.
    pub fn new<T: Idle + 'static>(idle: T) -> (r: IdleBox)
        ensures
            r == (IdleBox { inner: Box::new(idle) }),
    {
        IdleBox { inner: Box::new(idle) }
    }

    /// The action the boxed strategy decides on for the iteration.
    pub fn idle(&mut self, iteration: usize) -> (r: IdleAction)
        ensures
            r == old(self).decision(iteration),
            forall|i: usize| #[trigger] final(self).decision(i) == old(self).decision_after(iteration, i),
    {
        self.inner.idle(iteration)
    }
}

impl<T: Idle + Clone + Send + Sync + 'static> CreateIdle for T {
    /// A strategy creates boxed clones of itself.
    open spec fn creates(&self, idle: IdleBox) -> bool {
        exists|c: T| cloned(*self, c) && idle == (IdleBox { inner: Box::new(c) })
    }

    fn create_idle(&self) -> (r: IdleBox) {
        let c = self.clone();
        assert(cloned(*self, c));
        let r = IdleBox::new(c);
        assert(r == (IdleBox { inner: Box::new(c) }));
        r
    }
}

/// Used to reduce `Arc::new(Box::new(..))` where an `Arc<Box<dyn CreateIdle>>` is required.
pub trait IntoCreateIdle {
    fn into_create_idle(self) -> (factory: Arc<Box<dyn CreateIdle>>);
}

impl<T: CreateIdle + 'static> IntoCreateIdle for T {
    /// Shares the factory itself.
    fn into_create_idle(self) -> (r: Arc<Box<dyn CreateIdle>>)
        ensures
            r == Arc::<Box<dyn CreateIdle>>::new(Box::new(self)),
    {
        Arc::new(Box::new(self))
    }
}

impl IntoCreateIdle for Box<dyn CreateIdle> {
    fn into_create_idle(self) -> (r: Arc<Box<dyn CreateIdle>>)
        ensures
            *r == self,
    {
        let shared = Arc::new(self);
        shared
    }
}

impl IntoCreateIdle for Arc<Box<dyn CreateIdle>> {
    fn into_create_idle(self) -> (r: Arc<Box<dyn CreateIdle>>)
        ensures
            r == self,
    {
        self
    }
}

/// Never idle, busy spin.
#[derive(Debug, Clone, Copy)]
pub struct NoOp;

impl Idle for NoOp {
    open spec fn decision_after(&self, idled: usize, iteration: usize) -> IdleAction {
        self.decision(iteration)
    }

    open spec fn decision(&self, iteration: usize) -> IdleAction {
        IdleAction::Spin
    }

    fn idle(&mut self, _iteration: usize) -> (r: IdleAction)
        ensures
            r is Spin,
    {
        IdleAction::Spin
    }
}

/// Idle by yielding the thread.
#[derive(Debug, Clone, Copy)]
pub struct Yield;

impl Idle for Yield {
    open spec fn decision_after(&self, idled: usize, iteration: usize) -> IdleAction {
        self.decision(iteration)
    }

    open spec fn decision(&self, iteration: usize) -> IdleAction {
        IdleAction::Yield
    }

    fn idle(&mut self, _iteration: usize) -> (r: IdleAction)
        ensures
            r is Yield,
    {
        IdleAction::Yield
    }
}

/// Idle by sleeping for a fixed duration.
#[derive(Debug, Clone, Copy)]
pub struct Sleep {
    duration: Duration,
}

impl Sleep {
    /// The duration slept for on every idle iteration.
    pub closed spec fn sleep_duration(&self) -> Duration {
        self.duration
    }

    pub fn new(duration: Duration) -> (r: Self)
        ensures
            r.sleep_duration() == duration,
    {
        Sleep { duration }
    }
}

impl Idle for Sleep {
    open spec fn decision_after(&self, idled: usize, iteration: usize) -> IdleAction {
        self.decision(iteration)
    }

    open spec fn decision(&self, iteration: usize) -> IdleAction {
        IdleAction::Sleep(self.sleep_duration())
    }

    fn idle(&mut self, _iteration: usize) -> (r: IdleAction)
        ensures
            r == IdleAction::Sleep(old(self).sleep_duration()),
    {
        IdleAction::Sleep(self.duration)
    }
}

/// Idle by incrementally backing off.
///
/// 1. busy spin for some iterations
/// 2. yield for some iterations
/// 3. park for some iterations, incrementally parking for longer and longer
///    durations until the maximum is reached
#[derive(Debug, Clone, Copy)]
pub struct Backoff {
    yield_iteration_threshold: usize,
    park_iteration_threshold: usize,
    min_park_nanos: u64,
    max_park_nanos: u64,
}

/// How long the `k`-th parking iteration (counting from 1) of a back-off parks:
/// `k` times the minimum, capped at the maximum.
pub open spec fn park_nanos_spec(min_park_nanos: u64, max_park_nanos: u64, k: int) -> int {
    if min_park_nanos * k <= max_park_nanos {
        min_park_nanos * k
    } else {
        max_park_nanos as int
    }
}

impl Backoff {
    /// Iterations before this threshold spin.
    pub closed spec fn yield_threshold(&self) -> usize {
        self.yield_iteration_threshold
    }

    /// Iterations from the yield threshold up to this one yield; later ones park.
    pub closed spec fn park_threshold(&self) -> usize {
        self.park_iteration_threshold
    }

    pub closed spec fn min_park(&self) -> u64 {
        self.min_park_nanos
    }

    pub closed spec fn max_park(&self) -> u64 {
        self.max_park_nanos
    }

    /// The thresholds are in order: spinning ends no later than yielding does.
    pub closed spec fn wf(&self) -> bool {
        self.yield_iteration_threshold <= self.park_iteration_threshold
    }

    /// The action this back-off takes on the given iteration.
    pub open spec fn action_spec(&self, iteration: usize) -> IdleAction {
        if iteration < self.yield_threshold() {
            IdleAction::Spin
        } else if iteration < self.park_threshold() {
            IdleAction::Yield
        } else {
            IdleAction::Park(
                park_nanos_spec(
                    self.min_park(),
                    self.max_park(),
                    iteration - self.park_threshold() + 1,
                ) as u64,
            )
        }
    }

    pub fn new(
        spin_iterations: usize,
        yield_iterations: usize,
        min_park_duration: Duration,
        max_park_duration: Duration,
    ) -> (r: Self)
        requires
            spin_iterations + yield_iterations <= usize::MAX,
        ensures
            r.wf(),
            r.yield_threshold() == spin_iterations,
            r.park_threshold() == spin_iterations + yield_iterations,
            r.min_park() == saturate_nanos_spec(duration_nanos(min_park_duration)),
            r.max_park() == saturate_nanos_spec(duration_nanos(max_park_duration)),
    {
        Backoff {
            yield_iteration_threshold: spin_iterations,
            park_iteration_threshold: spin_iterations + yield_iterations,
            min_park_nanos: saturate_nanos(min_park_duration.as_nanos()),
            max_park_nanos: saturate_nanos(max_park_duration.as_nanos()),
        }
    }
}

impl Default for Backoff {
    /// Spin 16 times, yield 16 times, then park from 1 microsecond up to 1 millisecond.
    fn default() -> (r: Self)
        ensures
            r.wf(),
            r.yield_threshold() == 16,
            r.park_threshold() == 32,
            r.min_park() == 1_000,
            r.max_park() == 1_000_000,
    {
        Self::new(16, 16, Duration::from_micros(1), Duration::from_millis(1))
    }
}

impl Idle for Backoff {
    open spec fn decision_after(&self, idled: usize, iteration: usize) -> IdleAction {
        self.decision(iteration)
    }

    open spec fn decision(&self, iteration: usize) -> IdleAction {
        self.action_spec(iteration)
    }

    fn idle(&mut self, iteration: usize) -> (r: IdleAction)
        ensures
            r == old(self).action_spec(iteration),
            *final(self) == *old(self),
    {
        if iteration < self.yield_iteration_threshold {
            IdleAction::Spin
        } else if iteration < self.park_iteration_threshold {
            IdleAction::Yield
        } else {
            let k: u128 = (iteration - self.park_iteration_threshold) as u128 + 1;
            let min: u128 = self.min_park_nanos as u128;
            assert(min * k <= u128::MAX) by (nonlinear_arith)
                requires
                    min <= u64::MAX,
                    k <= u64::MAX + 1,
            ;
            let scaled: u128 = min * k;
            let park_nanos: u64 = if scaled <= self.max_park_nanos as u128 {
                scaled as u64
            } else {
                self.max_park_nanos
            };
            IdleAction::Park(park_nanos)
        }
    }
}

/// Backing off never parks longer than the maximum, and parks no shorter on
/// a later iteration than on an earlier one.
pub proof fn lemma_backoff_park_grows_to_max(b: Backoff, i: usize, j: usize)
    requires
        b.wf(),
        b.park_threshold() <= i <= j,
    ensures
        b.action_spec(i) matches IdleAction::Park(p) && p <= b.max_park(),
        b.action_spec(j) matches IdleAction::Park(q) && q <= b.max_park(),
        b.action_spec(i) matches IdleAction::Park(p) && b.action_spec(j) matches IdleAction::Park(q)
            && p <= q,
{
    let ki: int = i - b.park_threshold() + 1;
    let kj: int = j - b.park_threshold() + 1;
    let m: int = b.min_park() as int;
    assert(m * ki <= m * kj) by (nonlinear_arith)
        requires
            0 <= m,
            1 <= ki <= kj,
    ;
    assert(0 <= m * ki) by (nonlinear_arith)
        requires
            0 <= m,
            1 <= ki,
    ;
}

/// The `k`-th parking iteration of a back-off (counting from 1) parks for `k`
/// times the minimum park, or for the maximum once that product reaches it.
pub proof fn lemma_backoff_park_duration(b: Backoff, k: int)
    requires
        b.wf(),
        1 <= k,
        b.park_threshold() + k - 1 <= usize::MAX,
    ensures
        b.min_park() * k <= b.max_park() ==> b.action_spec((b.park_threshold() + k - 1) as usize)
            == IdleAction::Park((b.min_park() * k) as u64),
        b.min_park() * k >= b.max_park() ==> b.action_spec((b.park_threshold() + k - 1) as usize)
            == IdleAction::Park(b.max_park()),
{
    let i = (b.park_threshold() + k - 1) as usize;
    assert(i - b.park_threshold() + 1 == k);
    assert(0 <= b.min_park() * k) by (nonlinear_arith)
        requires
            0 <= b.min_park(),
            1 <= k,
    ;
}

/// Backing off goes through its phases in order: spinning before the yield
/// threshold, yielding up to the park threshold, parking from then on.
pub proof fn lemma_backoff_phases(b: Backoff, iteration: usize)
    requires
        b.wf(),
    ensures
        iteration < b.yield_threshold() ==> b.action_spec(iteration) is Spin,
        b.yield_threshold() <= iteration < b.park_threshold() ==> b.action_spec(iteration) is Yield,
        b.park_threshold() <= iteration ==> b.action_spec(iteration) is Park,
{
}

} // verus!
