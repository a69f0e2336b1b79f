//! The per-thread task group: the scheduling rules that decide, round by
//! round, which tasks stay, whether the thread idles, and when it winds down.
use std::time::Duration;
use vstd::prelude::*;

use crate::error::JoinError;
use crate::hook::OnTaskComplete;
use crate::idle::{IdleAction, IdleBox};
use crate::task::{Nonblock, Task};
use crate::text::{decimal, decimal_spec};
use vstd::string::StringExecFns;
use crate::time::duration_nanos;

verus! {

/// The outcome of driving a single task, or a whole task group, once.
#[derive(Debug, PartialEq, Eq, Clone, Copy, Structural)]
pub enum TaskOutcome {
    Active,
    Complete,
    Idle,
}

/// The outcome that a task's [`Nonblock`] result stands for.
pub open spec fn outcome_of_spec<O>(n: Nonblock<O>) -> TaskOutcome {
    match n {
        Nonblock::Active => TaskOutcome::Active,
        Nonblock::Complete(_) => TaskOutcome::Complete,
        Nonblock::Idle => TaskOutcome::Idle,
    }
}

/// Maps a task's result to its outcome, separating the output of a completed task.
pub fn outcome_of<O>(n: Nonblock<O>) -> (r: (TaskOutcome, Option<O>))
    ensures
        r.0 == outcome_of_spec(n),
        r.1 == (match n {
            Nonblock::Complete(o) => Some(o),
            _ => None,
        }),
{
    match n {
        Nonblock::Active => (TaskOutcome::Active, None),
        Nonblock::Complete(o) => (TaskOutcome::Complete, Some(o)),
        Nonblock::Idle => (TaskOutcome::Idle, None),
    }
}

/// The result that stands for an outcome, for a task without output.
pub fn nonblock_of(outcome: TaskOutcome) -> (r: Nonblock<()>)
    ensures
        outcome_of_spec(r) == outcome,
{
    match outcome {
        TaskOutcome::Active => Nonblock::Active,
        TaskOutcome::Idle => Nonblock::Idle,
        TaskOutcome::Complete => Nonblock::Complete(()),
    }
}

/// Drives a task on behalf of its join handle in state `state`: a cancelled
/// task is not driven again and counts as complete, so it leaves its group;
/// any other task is driven once, and its output, if it completed, is
/// handed back for the handle.
pub fn drive_for_handle<T: Task>(task: &mut T, state: JoinHandleState) -> (r: (TaskOutcome, Option<T::Output>))
    ensures
        state == JoinHandleState::Cancelled ==> r == (TaskOutcome::Complete, None::<T::Output>)
            && *final(task) == *old(task),
        state != JoinHandleState::Cancelled ==> exists|n: Nonblock<T::Output>|
            old(task).drives(*final(task), n) && r.0 == outcome_of_spec(n) && r.1 == (match n {
                Nonblock::Complete(o) => Some(o),
                _ => None,
            }),
        state != JoinHandleState::Cancelled ==> (r.1 is Some <==> r.0 == TaskOutcome::Complete),
{
    if state == JoinHandleState::Cancelled {
        return (TaskOutcome::Complete, None);
    }
    let n = task.drive();
    outcome_of(n)
}

/// The wind-down deadline a round starts from: a round that started or
/// completed a task restarts the wind-down, so it drops the old deadline.
pub open spec fn carried_deadline(deadline: Option<u128>, started: nat, completed: nat) -> Option<u128> {
    if started > 0 || completed > 0 {
        None
    } else {
        deadline
    }
}

/// How many of the outcomes are `Complete`.
pub open spec fn count_complete(outs: Seq<TaskOutcome>) -> nat
    decreases outs.len(),
{
    if outs.len() == 0 {
        0
    } else {
        count_complete(outs.drop_last()) + if outs.last() == TaskOutcome::Complete {
            1nat
        } else {
            0nat
        }
    }
}

/// The tasks that stay in a group after a round: those whose outcome is
/// not `Complete`, in driving order.
pub open spec fn kept_tasks<T>(driven: Seq<T>, outs: Seq<TaskOutcome>) -> Seq<T>
    decreases outs.len(),
{
    if outs.len() == 0 || driven.len() == 0 {
        Seq::empty()
    } else if outs.last() == TaskOutcome::Complete {
        kept_tasks(driven.drop_last(), outs.drop_last())
    } else {
        kept_tasks(driven.drop_last(), outs.drop_last()).push(driven.last())
    }
}

/// Whether any of the outcomes is not `Idle`.
pub open spec fn any_progress(outs: Seq<TaskOutcome>) -> bool
    decreases outs.len(),
{
    if outs.len() == 0 {
        false
    } else {
        any_progress(outs.drop_last()) || outs.last() != TaskOutcome::Idle
    }
}

/// A round made progress when it started new tasks or a task was not idle.
pub open spec fn round_progressed(started: nat, outs: Seq<TaskOutcome>) -> bool {
    started > 0 || any_progress(outs)
}

/// Whether the wind-down of an empty group is still waiting at `now`.
pub open spec fn winding_down(wind_down: Option<u128>, deadline: Option<u128>, now: u128) -> bool {
    &&& wind_down matches Some(d) && d != 0
    &&& deadline matches Some(t) && now < t
}

/// Whether a round ends by idling the thread.
pub open spec fn round_idles(
    wind_down: Option<u128>,
    deadline: Option<u128>,
    remaining: nat,
    progressed: bool,
    now: u128,
) -> bool {
    if remaining == 0 {
        winding_down(wind_down, deadline, now)
    } else {
        !progressed
    }
}

/// The outcome of a round of the whole group.
///
/// With tasks left, the group is `Active` when it made progress and `Idle`
/// otherwise. With no tasks left, it waits out the wind-down: never ending
/// without one, ending at once with a zero one, and ending once the deadline
/// set when the group emptied has passed.
pub open spec fn round_outcome(
    wind_down: Option<u128>,
    deadline: Option<u128>,
    remaining: nat,
    progressed: bool,
    now: u128,
) -> TaskOutcome {
    if remaining == 0 {
        match wind_down {
            None => TaskOutcome::Idle,
            Some(d) => if d == 0 {
                TaskOutcome::Complete
            } else {
                match deadline {
                    None => TaskOutcome::Idle,
                    Some(t) => if now >= t {
                        TaskOutcome::Complete
                    } else {
                        TaskOutcome::Idle
                    },
                }
            },
        }
    } else if progressed {
        TaskOutcome::Active
    } else {
        TaskOutcome::Idle
    }
}

/// The wind-down deadline after a round: set when an empty group starts
/// winding down, kept while it waits, cleared while the group has tasks.
pub open spec fn round_deadline(
    wind_down: Option<u128>,
    deadline: Option<u128>,
    remaining: nat,
    now: u128,
) -> Option<u128> {
    if remaining == 0 {
        match (wind_down, deadline) {
            (Some(d), None) => if d != 0 {
                Some((now + d) as u128)
            } else {
                None
            },
            _ => deadline,
        }
    } else {
        None
    }
}

/// The idle iteration after a round: one more after idling, reset to zero
/// after progress.
pub open spec fn round_iteration(
    wind_down: Option<u128>,
    deadline: Option<u128>,
    iteration: usize,
    remaining: nat,
    progressed: bool,
    now: u128,
) -> int {
    if round_idles(wind_down, deadline, remaining, progressed, now) {
        iteration + 1
    } else if remaining > 0 {
        0
    } else {
        iteration as int
    }
}

/// Drives each task once, in order, and keeps those that did not complete;
/// `started` tasks at the end of `all` are new in this round. Besides the
/// kept tasks, the count of completed ones and whether the round made
/// progress, it hands back the outcome, the state after driving and the
/// result of each task, in driving order.
fn drive_each<T: Task>(all: Vec<T>, started: usize) -> (r: (
    Vec<T>,
    usize,
    bool,
    Ghost<Seq<TaskOutcome>>,
    Ghost<Seq<T>>,
    Ghost<Seq<Nonblock<T::Output>>>,
))
    ensures
        r.3@.len() == all@.len(),
        r.4@.len() == all@.len(),
        r.5@.len() == all@.len(),
        r.1 == count_complete(r.3@),
        r.1 <= r.3@.len(),
        r.0@.len() == r.3@.len() - r.1,
        r.0@ == kept_tasks(r.4@, r.3@),
        r.2 == round_progressed(started as nat, r.3@),
        r.3@ == r.5@.map_values(|n: Nonblock<T::Output>| outcome_of_spec(n)),
        forall|i: int|
            #![trigger all@[i]]
            0 <= i < r.3@.len() ==> all@[i].drives(r.4@[i], r.5@[i]),
{
    let total: usize = all.len();
    let ghost all_len = all@.len();
    let ghost all_seq = all@;
    let ghost mut outs: Seq<TaskOutcome> = Seq::empty();
    let ghost mut driven: Seq<T> = Seq::empty();
    let ghost mut results: Seq<Nonblock<T::Output>> = Seq::empty();
    let mut kept: Vec<T> = Vec::new();
    let mut completed: usize = 0;
    let mut progressed: bool = started > 0;
    for task in it: all.into_iter()
        invariant
            it.seq() == all_seq,
            all_len == all_seq.len(),
            all_len == total,
            forall|j: int|
                #![trigger all_seq[j]]
                0 <= j < outs.len() ==> all_seq[j].drives(driven[j], results[j])
                    && outcome_of_spec(results[j]) == outs[j],
            outs.len() <= all_len,
            outs.len() == it.index(),
            completed == count_complete(outs),
            completed <= outs.len(),
            kept@.len() == outs.len() - completed,
            driven.len() == outs.len(),
            results.len() == outs.len(),
            kept@ == kept_tasks(driven, outs),
            progressed == round_progressed(started as nat, outs),
    {
        let mut task = task;
        let ghost before = task;
        assert(before == all_seq[outs.len() as int]);
        let result = task.drive();
        let ghost result_seen = result;
        let ghost after = task;
        assert(before.drives(after, result_seen));
        let (outcome, _output) = outcome_of(result);
        proof {
            let prev = outs;
            let prev_driven = driven;
            let prev_results = results;
            outs = outs.push(outcome);
            driven = driven.push(after);
            results = results.push(result_seen);
            assert(outs.drop_last() =~= prev);
            assert(driven.drop_last() =~= prev_driven);
            assert(results.drop_last() =~= prev_results);
            assert forall|j: int| 0 <= j < outs.len() implies #[trigger] all_seq[j].drives(driven[j], results[j])
                && outcome_of_spec(results[j]) == outs[j] by {
                if j < prev.len() {
                    assert(all_seq[j].drives(prev_driven[j], prev_results[j]));
                    assert(driven[j] == prev_driven[j]);
                    assert(results[j] == prev_results[j]);
                }
            }
        }
        match outcome {
            TaskOutcome::Complete => {
                completed = completed + 1;
                progressed = true;
            },
            TaskOutcome::Active => {
                kept.push(task);
                progressed = true;
            },
            TaskOutcome::Idle => {
                kept.push(task);
            },
        }
    }
    assert forall|i: int| 0 <= i < outs.len() implies #[trigger] outs[i] == outcome_of_spec(results[i]) by {
        assert(all_seq[i].drives(driven[i], results[i]));
    }
    assert(outs =~= results.map_values(|n: Nonblock<T::Output>| outcome_of_spec(n)));
    (kept, completed, progressed, Ghost(outs), Ghost(driven), Ghost(results))
}

/// What a call of [`TaskGroup::drive`] did.
pub struct DriveReport<T> {
    /// The outcome of the group as a whole.
    pub outcome: TaskOutcome,
    /// How many pending tasks joined the group.
    pub started: usize,
    /// How many tasks completed and left the group.
    pub completed: usize,
    /// The idle action the thread should carry out, when the round idled.
    pub idle: Option<IdleAction>,
    /// The outcome of each task driven, in driving order.
    pub outcomes: Ghost<Seq<TaskOutcome>>,
    /// Each task as it was after being driven, in driving order.
    pub driven: Ghost<Seq<T>>,
}

/// Appendable group of tasks that are driven together, round-robin, by one thread.
pub struct TaskGroup<T> {
    idle: IdleBox,
    wind_down_nanos: Option<u128>,
    active_tasks: Vec<T>,
    idle_iteration: usize,
    wind_down_complete_time: Option<u128>,
}

/// A wind-down duration in nanoseconds.
pub open spec fn wind_down_nanos_of(d: Option<Duration>) -> Option<u128> {
    match d {
        Some(d) => Some(duration_nanos(d)),
        None => None,
    }
}

impl<T: Task> TaskGroup<T> {
    /// The tasks currently in the group, in driving order.
    pub closed spec fn tasks(&self) -> Seq<T> {
        self.active_tasks@
    }

    /// The wind-down duration in nanoseconds (`None` never winds down).
    pub closed spec fn wind_down(&self) -> Option<u128> {
        self.wind_down_nanos
    }

    /// The group's idle strategy, in its current state.
    pub closed spec fn idle_box(&self) -> IdleBox {
        self.idle
    }

    /// The action the group's idle strategy decides on for the iteration.
    pub open spec fn idle_decision(&self, iteration: usize) -> IdleAction {
        self.idle_box().decision(iteration)
    }

    /// The current idle iteration.
    pub closed spec fn iteration(&self) -> usize {
        self.idle_iteration
    }

    /// The time, in nanoseconds, at which the current wind-down ends.
    pub closed spec fn deadline(&self) -> Option<u128> {
        self.wind_down_complete_time
    }

    pub fn new(idle: IdleBox, wind_down_duration: Option<Duration>) -> (r: Self)
        ensures
            r.tasks().len() == 0,
            r.idle_box() == idle,
            r.wind_down() == wind_down_nanos_of(wind_down_duration),
            r.iteration() == 0,
            r.deadline() is None,
    {
        let wind_down_nanos = match wind_down_duration {
            Some(d) => Some(d.as_nanos()),
            None => None,
        };
        TaskGroup {
            idle,
            wind_down_nanos,
            active_tasks: Vec::new(),
            idle_iteration: 0,
            wind_down_complete_time: None,
        }
    }

    /// The number of tasks in the group.
    pub fn len(&self) -> (r: usize)
        ensures
            r == self.tasks().len(),
    {
        self.active_tasks.len()
    }

    /// The wind-down duration in nanoseconds.
    pub fn wind_down_nanos(&self) -> (r: Option<u128>)
        ensures
            r == self.wind_down(),
    {
        self.wind_down_nanos
    }

    /// The current idle iteration.
    pub fn idle_iteration(&self) -> (r: usize)
        ensures
            r == self.iteration(),
    {
        self.idle_iteration
    }

    /// Drives one round: the `pending` tasks join the group, every task is
    /// driven once in order, completed tasks leave, and the group decides
    /// whether the thread idles or winds down.
    pub fn drive(&mut self, pending: Vec<T>, now: u128) -> (r: DriveReport<T>)
        requires
            old(self).iteration() < usize::MAX,
            old(self).wind_down() matches Some(d) ==> now + d <= u128::MAX,
        ensures
            r.outcomes@.len() == old(self).tasks().len() + pending@.len(),
            r.started == pending@.len(),
            r.completed == count_complete(r.outcomes@),
            r.driven@.len() == r.outcomes@.len(),
            final(self).tasks() == kept_tasks(r.driven@, r.outcomes@),
            final(self).tasks().len() == r.outcomes@.len() - r.completed,
            final(self).wind_down() == old(self).wind_down(),
            r.outcome == round_outcome(
                old(self).wind_down(),
                carried_deadline(old(self).deadline(), r.started as nat, r.completed as nat),
                final(self).tasks().len(),
                round_progressed(r.started as nat, r.outcomes@),
                now,
            ),
            final(self).deadline() == round_deadline(
                old(self).wind_down(),
                carried_deadline(old(self).deadline(), r.started as nat, r.completed as nat),
                final(self).tasks().len(),
                now,
            ),
            final(self).iteration() == round_iteration(
                old(self).wind_down(),
                carried_deadline(old(self).deadline(), r.started as nat, r.completed as nat),
                old(self).iteration(),
                final(self).tasks().len(),
                round_progressed(r.started as nat, r.outcomes@),
                now,
            ),
            r.idle == (if round_idles(
                old(self).wind_down(),
                carried_deadline(old(self).deadline(), r.started as nat, r.completed as nat),
                final(self).tasks().len(),
                round_progressed(r.started as nat, r.outcomes@),
                now,
            ) {
                Some(old(self).idle_decision(old(self).iteration()))
            } else {
                None
            }),
            r.idle is Some ==> forall|i: usize|
                #[trigger] final(self).idle_decision(i) == old(self).idle_box().decision_after(
                    old(self).iteration(),
                    i,
                ),
            r.idle is None ==> final(self).idle_box() == old(self).idle_box(),
            forall|i: int|
                #![trigger (old(self).tasks() + pending@)[i]]
                0 <= i < r.outcomes@.len() ==> exists|n: Nonblock<T::Output>|
                    (old(self).tasks() + pending@)[i].drives(r.driven@[i], n)
                        && outcome_of_spec(n) == r.outcomes@[i],
    {
        let started: usize = pending.len();
        let ghost pending_in = pending@;
        let mut pending = pending;
        let mut all: Vec<T> = Vec::new();
        std::mem::swap(&mut all, &mut self.active_tasks);
        all.append(&mut pending);
        assert(all@ =~= old(self).tasks() + pending_in);
        let (kept, completed, progressed, outs, driven, results) = drive_each(all, started);
        self.active_tasks = kept;
        if started > 0 || completed > 0 {
            self.wind_down_complete_time = None;
        }
        let mut idle: Option<IdleAction> = None;
        let outcome = if self.active_tasks.len() == 0 {
            match self.wind_down_nanos {
                None => TaskOutcome::Idle,
                Some(wind_down) => if wind_down == 0 {
                    TaskOutcome::Complete
                } else {
                    match self.wind_down_complete_time {
                        None => {
                            self.wind_down_complete_time = Some(now + wind_down);
                            TaskOutcome::Idle
                        },
                        Some(deadline) => if now >= deadline {
                            TaskOutcome::Complete
                        } else {
                            idle = Some(self.idle.idle(self.idle_iteration));
                            self.idle_iteration = self.idle_iteration + 1;
                            TaskOutcome::Idle
                        },
                    }
                },
            }
        } else {
            self.wind_down_complete_time = None;
            if progressed {
                self.idle_iteration = 0;
                TaskOutcome::Active
            } else {
                idle = Some(self.idle.idle(self.idle_iteration));
                self.idle_iteration = self.idle_iteration + 1;
                TaskOutcome::Idle
            }
        };
        DriveReport { outcome, started, completed, idle, outcomes: outs, driven }
    }
}

/// Setting `hook` on `before` gives `after`: a waiting output goes to the
/// hook at once and neither is kept; otherwise the hook is kept to wait.
pub open spec fn hooks_to<T, H: OnTaskComplete<T> + 'static>(
    before: JoinHandleContext<T>,
    after: JoinHandleContext<T>,
    hook: H,
) -> bool {
    &&& after.state_spec() == before.state_spec()
    &&& after.output() is None
    &&& after.has_hook() == (before.output() is None)
    &&& (before.output() is None ==> after.hook_spec() == Some::<Box<dyn OnTaskComplete<T>>>(Box::new(hook)))
    &&& (before.output() matches Some(o) ==> hook.takes(o))
}

/// Completing `before` with `output` gives `after`: a waiting hook takes the
/// output and is dropped; otherwise the output is kept for the handle.
pub open spec fn completes_to<T>(before: JoinHandleContext<T>, after: JoinHandleContext<T>, output: T) -> bool {
    &&& after.state_spec() == settle(before.state_spec(), JoinHandleState::Complete)
    &&& !after.has_hook()
    &&& (before.has_hook() ==> after.output() is None && before.hook_takes(output))
    &&& (!before.has_hook() ==> after.output() == Some(output))
}

/// The lifecycle of a spawned task as seen through its join handle.
///
/// A handle starts `Active`; the first of completion, cancellation or
/// orphaning moves it to the matching state, which is then final.
#[derive(Debug, Clone, Copy, PartialEq, Eq, Structural)]
pub enum JoinHandleState {
    Active,
    Complete,
    Cancelled,
    Orphaned,
}

/// The state after a transition request: only an `Active` handle moves.
pub open spec fn settle(current: JoinHandleState, target: JoinHandleState) -> JoinHandleState {
    if current == JoinHandleState::Active {
        target
    } else {
        current
    }
}

/// What taking the output of a handle in state `state` holding `output` returns.
pub open spec fn try_take_spec<T>(state: JoinHandleState, output: Option<T>) -> Result<Option<T>, JoinError> {
    match state {
        JoinHandleState::Active => Ok(None),
        JoinHandleState::Complete => match output {
            Some(x) => Ok(Some(x)),
            None => Err(JoinError::AlreadyTaken),
        },
        _ => Err(JoinError::Cancelled),
    }
}

/// What joining a handle that is no longer active returns.
pub open spec fn join_spec<T>(state: JoinHandleState, output: Option<T>) -> Result<T, JoinError> {
    match state {
        JoinHandleState::Complete => match output {
            Some(x) => Ok(x),
            None => Err(JoinError::AlreadyTaken),
        },
        _ => Err(JoinError::Cancelled),
    }
}

/// Shared state between a task and its join handle: the lifecycle state, the
/// completed output until it is taken, and the hook that receives the output
/// in its place.
#[verifier::reject_recursive_types(T)]
pub struct JoinHandleContext<T> {
    state: JoinHandleState,
    output: Option<T>,
    complete_hook: Option<Box<dyn OnTaskComplete<T>>>,
}

impl<T> JoinHandleContext<T> {
    /// A context never holds both an output and a hook waiting for it: the
    /// hook takes the output as soon as both would be there.
    #[verifier::type_invariant]
    pub closed spec fn wf(&self) -> bool {
        self.complete_hook is Some ==> self.output is None
    }

    /// The lifecycle state.
    pub closed spec fn state_spec(&self) -> JoinHandleState {
        self.state
    }

    /// The completed output that has not been taken yet.
    pub closed spec fn output(&self) -> Option<T> {
        self.output
    }

    /// Whether a completion hook waits for the output.
    pub closed spec fn has_hook(&self) -> bool {
        self.complete_hook is Some
    }

    /// The completion hook that waits for the output, if any.
    pub closed spec fn hook_spec(&self) -> Option<Box<dyn OnTaskComplete<T>>> {
        self.complete_hook
    }

    /// Whether the completion hook that waits, if any, takes `output`.
    pub closed spec fn hook_takes(&self, output: T) -> bool {
        self.complete_hook matches Some(h) && h.takes(output)
    }

    pub fn new() -> (r: Self)
        ensures
            r.state_spec() == JoinHandleState::Active,
            r.output() is None,
            !r.has_hook(),
    {
        JoinHandleContext { state: JoinHandleState::Active, output: None, complete_hook: None }
    }

    /// Sets the hook that receives the output. When the output is already
    /// there, the hook receives it at once and is not kept.
    pub fn set_complete_hook<H: OnTaskComplete<T> + 'static>(&mut self, complete_hook: H)
        ensures
            hooks_to(*old(self), *final(self), complete_hook),
    {
        match self.take_output() {
            Some(output) => {
                self.complete_hook = None;
                let mut hook = complete_hook;
                hook.on_task_complete(output);
            },
            None => {
                self.complete_hook = Some(Box::new(complete_hook));
            },
        }
    }

    /// Hands the output of the completed task to the hook, or keeps it for
    /// the handle when no hook is set, and marks an active handle complete.
    pub fn complete(&mut self, output: T)
        ensures
            completes_to(*old(self), *final(self), output),
    {
        proof {
            use_type_invariant(&*self);
        }
        let mut waiting: Option<Box<dyn OnTaskComplete<T>>> = None;
        std::mem::swap(&mut waiting, &mut self.complete_hook);
        match waiting {
            Some(mut hook) => hook.on_task_complete(output),
            None => {
                self.output = Some(output);
            },
        }
        if self.state == JoinHandleState::Active {
            self.state = JoinHandleState::Complete;
        }
    }

    /// Marks an active handle cancelled.
    pub fn cancel(&mut self)
        ensures
            final(self).state_spec() == settle(old(self).state_spec(), JoinHandleState::Cancelled),
            final(self).output() == old(self).output(),
            final(self).has_hook() == old(self).has_hook(),
    {
        proof {
            use_type_invariant(&*self);
        }
        if self.state == JoinHandleState::Active {
            self.state = JoinHandleState::Cancelled;
        }
    }

    /// Marks an active handle orphaned: nobody will take its output.
    pub fn orphan(&mut self)
        ensures
            final(self).state_spec() == settle(old(self).state_spec(), JoinHandleState::Orphaned),
            final(self).output() == old(self).output(),
            final(self).has_hook() == old(self).has_hook(),
    {
        proof {
            use_type_invariant(&*self);
        }
        if self.state == JoinHandleState::Active {
            self.state = JoinHandleState::Orphaned;
        }
    }

    pub fn state(&self) -> (r: JoinHandleState)
        ensures
            r == self.state_spec(),
    {
        self.state
    }

    /// Takes the output, leaving none behind.
    pub fn take_output(&mut self) -> (r: Option<T>)
        ensures
            r == old(self).output(),
            final(self).output() is None,
            final(self).state_spec() == old(self).state_spec(),
            final(self).has_hook() == old(self).has_hook(),
    {
        let mut output: Option<T> = None;
        std::mem::swap(&mut output, &mut self.output);
        output
    }

    /// Tries to take the output: `Ok(None)` while the task is active, the
    /// output once after it completed, and an error otherwise.
    pub fn try_take(&mut self) -> (r: Result<Option<T>, JoinError>)
        ensures
            r == try_take_spec(old(self).state_spec(), old(self).output()),
            final(self).state_spec() == old(self).state_spec(),
            final(self).has_hook() == old(self).has_hook(),
            final(self).output() == (if old(self).state_spec() == JoinHandleState::Complete {
                None
            } else {
                old(self).output()
            }),
    {
        match self.state {
            JoinHandleState::Active => Ok(None),
            JoinHandleState::Complete => match self.take_output() {
                Some(x) => Ok(Some(x)),
                None => Err(JoinError::AlreadyTaken),
            },
            _ => Err(JoinError::Cancelled),
        }
    }

    /// The result of joining once the task is no longer active.
    pub fn join_result(&mut self) -> (r: Result<T, JoinError>)
        ensures
            r == join_spec(old(self).state_spec(), old(self).output()),
            final(self).state_spec() == old(self).state_spec(),
            final(self).has_hook() == old(self).has_hook(),
            old(self).state_spec() == JoinHandleState::Complete ==> final(self).output() is None,
            old(self).state_spec() != JoinHandleState::Complete ==> final(self).output() == old(self).output(),
    {
        match self.state {
            JoinHandleState::Complete => match self.take_output() {
                Some(x) => Ok(x),
                None => Err(JoinError::AlreadyTaken),
            },
            _ => Err(JoinError::Cancelled),
        }
    }
}

/// The name of a runtime: `nblock` for the first runtime, `nblock-N` for the N-th.
pub open spec fn runtime_name_spec(runtime_id: u64) -> Seq<char> {
    if runtime_id == 1 {
        "nblock"@
    } else {
        "nblock-"@ + decimal_spec(runtime_id as nat)
    }
}

/// The name of a runtime thread: `<runtime> task <task name>` for a dedicated
/// thread, `<runtime> thread-<id>` for a shared one.
pub open spec fn thread_name_spec(runtime_id: u64, task_name: Seq<char>, thread_id: Option<u64>) -> Seq<char> {
    match thread_id {
        None => runtime_name_spec(runtime_id) + " task "@ + task_name,
        Some(t) => runtime_name_spec(runtime_id) + " thread-"@ + decimal_spec(t as nat),
    }
}

/// The name of the runtime with the given id.
pub fn runtime_name(runtime_id: u64) -> (r: String)
    ensures
        r@ == runtime_name_spec(runtime_id),
{
    if runtime_id == 1 {
        "nblock".to_owned()
    } else {
        let mut name = String::from_str("nblock-");
        let digits = decimal(runtime_id);
        name.append(digits.as_str());
        name
    }
}

/// The name of a thread spawned for `task_name`, shared under `thread_id` or dedicated.
pub fn thread_name(runtime_id: u64, task_name: &str, thread_id: Option<u64>) -> (r: String)
    ensures
        r@ == thread_name_spec(runtime_id, task_name@, thread_id),
{
    let mut name = runtime_name(runtime_id);
    match thread_id {
        None => {
            name.append(" task ");
            name.append(task_name);
        },
        Some(t) => {
            name.append(" thread-");
            let digits = decimal(t);
            name.append(digits.as_str());
        },
    }
    name
}

/// Whether a runtime thread stops after its group reported `outcome`: a
/// dedicated thread stops once its group completes, a shared one only when
/// no task is waiting to join it.
pub fn thread_stops(outcome: TaskOutcome, thread_id: Option<u64>, pending_empty: bool) -> (r: bool)
    ensures
        r == (outcome == TaskOutcome::Complete && (thread_id is None || pending_empty)),
{
    match outcome {
        TaskOutcome::Complete => match thread_id {
            None => true,
            Some(_) => pending_empty,
        },
        _ => false,
    }
}

/// Any progress shows in some outcome that is not `Idle`.
proof fn lemma_progress_witness(outs: Seq<TaskOutcome>)
    ensures
        any_progress(outs) <==> exists|i: int| 0 <= i < outs.len() && outs[i] != TaskOutcome::Idle,
    decreases outs.len(),
{
    if outs.len() > 0 {
        lemma_progress_witness(outs.drop_last());
        if any_progress(outs.drop_last()) {
            let i = choose|i: int| 0 <= i < outs.drop_last().len() && outs.drop_last()[i] != TaskOutcome::Idle;
            assert(outs[i] != TaskOutcome::Idle);
        }
        if exists|i: int| 0 <= i < outs.len() && outs[i] != TaskOutcome::Idle {
            let i = choose|i: int| 0 <= i < outs.len() && outs[i] != TaskOutcome::Idle;
            if i < outs.len() - 1 {
                assert(outs.drop_last()[i] != TaskOutcome::Idle);
            }
        }
    }
}

/// A thread idles only when every task it drove was idle and no new task
/// joined: a single active or completing task keeps the thread from idling.
pub proof fn lemma_idles_only_when_all_idle(
    wind_down: Option<u128>,
    deadline: Option<u128>,
    remaining: nat,
    started: nat,
    outs: Seq<TaskOutcome>,
    now: u128,
)
    requires
        remaining > 0,
        round_idles(wind_down, deadline, remaining, round_progressed(started, outs), now),
    ensures
        started == 0,
        forall|i: int| 0 <= i < outs.len() ==> outs[i] == TaskOutcome::Idle,
{
    lemma_progress_witness(outs);
}

/// After a round in which the group made progress, the idle iteration
/// starts over from zero.
pub proof fn lemma_iteration_resets_on_progress(
    wind_down: Option<u128>,
    deadline: Option<u128>,
    iteration: usize,
    remaining: nat,
    started: nat,
    outs: Seq<TaskOutcome>,
    now: u128,
)
    requires
        remaining > 0,
        started > 0 || exists|i: int| 0 <= i < outs.len() && outs[i] != TaskOutcome::Idle,
    ensures
        round_iteration(wind_down, deadline, iteration, remaining, round_progressed(started, outs), now) == 0,
        round_outcome(wind_down, deadline, remaining, round_progressed(started, outs), now)
            == TaskOutcome::Active,
{
    lemma_progress_witness(outs);
}

/// Each round that idles hands the strategy the current iteration and moves
/// the next one up by one, so consecutive idle rounds count 0, 1, 2, ...
pub proof fn lemma_idling_advances_iteration(
    wind_down: Option<u128>,
    deadline: Option<u128>,
    iteration: usize,
    remaining: nat,
    progressed: bool,
    now: u128,
)
    requires
        round_idles(wind_down, deadline, remaining, progressed, now),
    ensures
        round_iteration(wind_down, deadline, iteration, remaining, progressed, now) == iteration + 1,
        round_outcome(wind_down, deadline, remaining, progressed, now) == TaskOutcome::Idle,
{
}

/// An empty group whose wind-down has passed its deadline completes: once a
/// round with no new and no completing task finds the group empty at or
/// after the deadline, the group completes and the thread does not idle.
pub proof fn lemma_wind_down_ends_at_deadline(d: u128, t: u128, progressed: bool, now: u128)
    requires
        d != 0,
        now >= t,
    ensures
        round_outcome(Some(d), carried_deadline(Some(t), 0, 0), 0, progressed, now) == TaskOutcome::Complete,
        !round_idles(Some(d), carried_deadline(Some(t), 0, 0), 0, progressed, now),
        round_deadline(Some(d), carried_deadline(Some(t), 0, 0), 0, now) == Some(t),
{
}

/// While the wind-down of an empty group has not reached its deadline, the
/// group idles and keeps waiting for that same deadline.
pub proof fn lemma_wind_down_waits_before_deadline(d: u128, t: u128, progressed: bool, now: u128)
    requires
        d != 0,
        now < t,
    ensures
        round_outcome(Some(d), carried_deadline(Some(t), 0, 0), 0, progressed, now) == TaskOutcome::Idle,
        round_idles(Some(d), carried_deadline(Some(t), 0, 0), 0, progressed, now),
        round_deadline(Some(d), carried_deadline(Some(t), 0, 0), 0, now) == Some(t),
{
}

/// A group completes only once it has no task left and its wind-down is
/// over; without a wind-down duration it never completes.
pub proof fn lemma_complete_only_after_wind_down(
    wind_down: Option<u128>,
    deadline: Option<u128>,
    remaining: nat,
    progressed: bool,
    now: u128,
)
    requires
        round_outcome(wind_down, deadline, remaining, progressed, now) == TaskOutcome::Complete,
    ensures
        remaining == 0,
        wind_down matches Some(d) && (d == 0 || (deadline matches Some(t) && now >= t)),
{
}

/// A wind-down that starts at `now` ends no earlier than `now` plus its duration.
pub proof fn lemma_wind_down_deadline(wind_down: Option<u128>, now: u128)
    requires
        wind_down matches Some(d) && d != 0 && now + d <= u128::MAX,
    ensures
        round_deadline(wind_down, None, 0, now) matches Some(t) && t == now + wind_down.unwrap(),
        round_outcome(wind_down, None, 0, false, now) == TaskOutcome::Idle,
{
}

/// A round that started or completed a task restarts the wind-down: when the
/// group is empty after it, the group waits the whole wind-down duration
/// from that round on, whatever deadline it was waiting for before.
pub proof fn lemma_activity_restarts_wind_down(
    wind_down: Option<u128>,
    deadline: Option<u128>,
    started: nat,
    completed: nat,
    progressed: bool,
    now: u128,
)
    requires
        started > 0 || completed > 0,
        wind_down matches Some(d) && d != 0 && now + d <= u128::MAX,
    ensures
        round_deadline(wind_down, carried_deadline(deadline, started, completed), 0, now)
            == Some((now + wind_down.unwrap()) as u128),
        round_outcome(wind_down, carried_deadline(deadline, started, completed), 0, progressed, now)
            == TaskOutcome::Idle,
{
}

/// Once a handle has left `Active`, no later completion, cancellation or
/// orphaning changes its state.
pub proof fn lemma_settled_state_is_final(current: JoinHandleState, target: JoinHandleState)
    requires
        current != JoinHandleState::Active,
    ensures
        settle(current, target) == current,
{
}

/// The first settling of an active handle decides its state for good.
pub proof fn lemma_first_settle_wins(first: JoinHandleState, second: JoinHandleState)
    requires
        first != JoinHandleState::Active,
    ensures
        settle(settle(JoinHandleState::Active, first), second) == first,
{
}

/// The output of a completed task is taken exactly once: the first take
/// returns it, every later one reports `AlreadyTaken`.
pub proof fn lemma_output_taken_once<T>(output: T)
    ensures
        try_take_spec(JoinHandleState::Complete, Some(output)) == Ok::<Option<T>, JoinError>(Some(output)),
        try_take_spec(JoinHandleState::Complete, None::<T>) == Err::<Option<T>, JoinError>(JoinError::AlreadyTaken),
        join_spec(JoinHandleState::Complete, None::<T>) == Err::<T, JoinError>(JoinError::AlreadyTaken),
{
}

/// What an active task completes with, when no hook waits for it, is what
/// taking the output then returns.
pub proof fn lemma_take_returns_completed_output<T>(output: T)
    ensures
        try_take_spec(settle(JoinHandleState::Active, JoinHandleState::Complete), Some(output))
            == Ok::<Option<T>, JoinError>(Some(output)),
        join_spec(settle(JoinHandleState::Active, JoinHandleState::Complete), Some(output))
            == Ok::<T, JoinError>(output),
{
}

/// A cancelled task never yields an output, whatever the slot holds.
pub proof fn lemma_cancelled_never_yields<T>(output: Option<T>)
    ensures
        try_take_spec(JoinHandleState::Cancelled, output) == Err::<Option<T>, JoinError>(JoinError::Cancelled),
        join_spec(JoinHandleState::Cancelled, output) == Err::<T, JoinError>(JoinError::Cancelled),
{
}

/// While the task is active, taking reports no output yet.
pub proof fn lemma_active_yields_nothing_yet<T>(output: Option<T>)
    ensures
        try_take_spec(JoinHandleState::Active, output) == Ok::<Option<T>, JoinError>(None),
{
}


/// A hook set after the task completed receives its output at once, and
/// neither the output nor the hook is left behind.
pub proof fn lemma_hook_after_completion_receives_output<T, H: OnTaskComplete<T> + 'static>(
    fresh: JoinHandleContext<T>,
    completed: JoinHandleContext<T>,
    hooked: JoinHandleContext<T>,
    output: T,
    hook: H,
)
    requires
        fresh.output() is None,
        !fresh.has_hook(),
        completes_to(fresh, completed, output),
        hooks_to(completed, hooked, hook),
    ensures
        hook.takes(output),
        !hooked.has_hook(),
        hooked.output() is None,
{
}

/// A hook set before the task completed is the one that waits, it receives
/// the output on completion, and neither the output nor a hook is left behind.
pub proof fn lemma_hook_before_completion_receives_output<T, H: OnTaskComplete<T> + 'static>(
    fresh: JoinHandleContext<T>,
    hooked: JoinHandleContext<T>,
    completed: JoinHandleContext<T>,
    output: T,
    hook: H,
)
    requires
        fresh.output() is None,
        hooks_to(fresh, hooked, hook),
        completes_to(hooked, completed, output),
    ensures
        hooked.hook_spec() == Some::<Box<dyn OnTaskComplete<T>>>(Box::new(hook)),
        hooked.hook_takes(output),
        !completed.has_hook(),
        completed.output() is None,
{
}

} // verus!
