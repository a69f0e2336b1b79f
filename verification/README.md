# nblock

nblock is a non-blocking runtime: it executes non-blocking tasks on a
collection of managed threads. This crate is its verified core, written in
Verus: its scheduling, selection and completion rules carry contracts that
Verus proves.

## Interface

The verified core decides and the host acts:

- `RuntimeBuilder::build` returns a `RuntimeConfig`; the host starts a
  runtime from it (`app/`, `BuildRuntime::build_runtime`).
- `spawn_plan` decides whether a task gets a dedicated thread, joins a
  running shared thread or starts one; `thread_wind_down` gives a thread its
  wind-down; `TaskGroup::drive` runs one round of a thread and reports the
  idle action to perform; `drive_for_handle` drives a task on behalf of its
  join handle.
- `ThreadSelector` has `ready_for` and `can_select` beside `select`, so that
  a selection that would panic is refused up front.
- An `Idle` strategy returns the `IdleAction` it decided on, and the host
  performs it.
- A `Task` states, through its `drives` relation, which states and results
  one call of `drive` may lead to; `Idle` does the same with `decision` and
  `decision_after`, `CreateIdle` with `creates`, and a completion hook with
  `takes`. The contracts of the task group and the
  join handle are stated over these relations.
- Closures become tasks, idle strategies and hooks through the host's
  `FnTask`, `FnIdle` and `FnHook` adapters.

## Layout

- `src/task.rs`: the `Task` and `IntoTask` traits and the `Nonblock` result of
  driving a task once.
- `src/thread.rs`: the per-thread `TaskGroup` (which tasks stay after a round,
  when the thread idles, when it winds down), the `JoinHandleContext` state
  machine behind a join handle, and thread naming.
- `src/idle.rs`: idle strategies (`NoOp`, `Yield`, `Sleep`, `Backoff`). A
  strategy decides an `IdleAction`; the host thread carries it out.
- `src/selector.rs`: thread selectors (`DedicatedThreadSelector`,
  `RoundRobinSelector`, `ConfiguredSelector`) and their builders.
- `src/lib.rs`: `RuntimeBuilder`, which produces a `RuntimeConfig`, where a
  spawned task goes, and the decisions of a blocking shutdown or join.
- `src/error.rs`, `src/hook.rs`, `src/text.rs`, `src/time.rs`: errors, hook
  traits, decimal rendering and the nanosecond view of `Duration`.
- `app/`: the threaded host. It spawns threads, keeps thread-locals and the
  counters shared between threads, shares join handles behind a spin lock,
  and performs the idle actions. It calls into the verified core for every
  decision.

## Laws proved

- A thread idles only when every task it drove reported `Idle` and no new
  task arrived: in any other round the idle strategy is left untouched. An
  idling round hands the strategy the current iteration and reports its
  decision; the iteration restarts at zero after progress.
- A strategy creates boxed clones of itself, and sharing it as a factory
  keeps the strategy itself.
- A task group completes only once it is empty and its wind-down is over;
  a round that started or completed a task restarts the wind-down; without
  a wind-down duration it never completes.
- Each task is driven once per round, older tasks first and then the new ones
  in arrival order; each reported outcome is what that one call returned, and
  the tasks kept are the tasks as that call left them.
- A completion hook receives the output whether it is set before or after
  the task completed; set before, it is the hook that waits. Neither the
  output nor the hook is left behind.
- A join handle settles once: the first of completion, cancellation and
  orphaning decides its state. A completed task's output is taken once.
- Round-robin selection goes through the thread ids in increasing order,
  repeats with their count as period, and alternates between distinct ids.
  Adding lists of ids in either order builds the same rotation.
- A configured selector prefers a pinned task name, then the first matching
  pattern, then what the fallback it was built with selects.
- A built runtime configuration holds the selector, runflag, wind-down and
  hooks last given to the builder.
- Backing off spins, then yields, then parks for durations that grow up to
  the maximum.
