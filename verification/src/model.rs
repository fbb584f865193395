//! The pool as a whole: the queue, the workers and the tasks between them,
//! as a transition system, and what holds of every run of it.
//!
//! The executable pool and workers decide one call at a time. This module
//! puts those decisions together: a run is a sequence of steps taken by the
//! submitters and the workers in any order, and each step changes the state
//! by the same rules that the executable code follows
//! ([`submit_outcome`] and [`WorkerState::after`]). The queue gives its
//! tasks out in no particular order. Tasks are told apart by a number; the
//! same number may be submitted more than once.
//!
//! A task may fail while it is executed. The pool does not guard its workers
//! against that: the worker is lost with the task. The laws below say what
//! such a failure can and cannot spoil.

use vstd::prelude::*;
use vstd::multiset::Multiset;
use crate::pool::submit_outcome;
use crate::worker::WorkerState;

verus! {

/// One worker as the system sees it: its state and the task that it is
/// executing, if any.
pub struct Seat {
    pub state: WorkerState,
    pub task: Option<nat>,
}

/// The state of a pool with its queue and workers.
pub struct PoolRun {
    /// The pool still holds its producing endpoint.
    pub open: bool,
    /// The tasks buffered in the queue.
    pub queue: Multiset<nat>,
    /// The workers, by index.
    pub seats: Seq<Seat>,
    /// Every task that a submission has put into the queue.
    pub accepted: Multiset<nat>,
    /// Every task that a worker has run to completion.
    pub finished: Multiset<nat>,
    /// Every task that failed while a worker was executing it.
    pub failed: Multiset<nat>,
}

/// What can happen to a pool.
pub enum Step {
    /// A caller submits a task.
    Submit { task: nat },
    /// The worker's receive resolves: it takes `task` out of the queue, or,
    /// when the queue is empty and closed, it gets the closed signal.
    Receive { worker: int, task: nat },
    /// The worker completes the task that it is executing.
    Finish { worker: int },
    /// The task that the worker is executing fails. Nothing guards the
    /// worker against that: the task is lost and the worker with it.
    Fail { worker: int },
    /// The pool releases its producing endpoint, because it is shut down or
    /// because it is discarded.
    Shutdown,
}

/// The tasks of an optional task: one or none.
pub open spec fn bag(task: Option<nat>) -> Multiset<nat> {
    match task {
        Some(t) => Multiset::singleton(t),
        None => Multiset::empty(),
    }
}

/// The tasks that the workers are executing.
pub open spec fn executing(seats: Seq<Seat>) -> Multiset<nat>
    decreases seats.len(),
{
    if seats.len() == 0 {
        Multiset::empty()
    } else {
        executing(seats.drop_last()).add(bag(seats.last().task))
    }
}

/// One for a worker that has not terminated, zero for one that has.
pub open spec fn one_if_running(state: WorkerState) -> nat {
    if state is Running {
        1
    } else {
        0
    }
}

/// The number of workers that have not terminated.
pub open spec fn alive(seats: Seq<Seat>) -> nat
    decreases seats.len(),
{
    if seats.len() == 0 {
        0
    } else {
        alive(seats.drop_last()) + one_if_running(seats.last().state)
    }
}

/// Whether a consuming endpoint is left on the queue: some worker has not
/// terminated.
pub open spec fn has_consumer(seats: Seq<Seat>) -> bool {
    exists|i: int| 0 <= i < seats.len() && (#[trigger] seats[i]).state is Running
}

/// A fresh pool of `n` workers: open, nothing queued, every worker running
/// and idle.
pub open spec fn init(n: nat) -> PoolRun {
    PoolRun {
        open: true,
        queue: Multiset::empty(),
        seats: Seq::new(n, |i: int| Seat { state: WorkerState::Running, task: None }),
        accepted: Multiset::empty(),
        finished: Multiset::empty(),
        failed: Multiset::empty(),
    }
}

/// The state after one step. A step that cannot be taken (a submission that
/// is refused, a receive that would block, a worker that is not there)
/// leaves the state as it is.
pub open spec fn next(r: PoolRun, step: Step) -> PoolRun {
    match step {
        Step::Submit { task } => {
            if submit_outcome(r.open, has_consumer(r.seats)) is Ok {
                PoolRun { queue: r.queue.insert(task), accepted: r.accepted.insert(task), ..r }
            } else {
                r
            }
        },
        Step::Receive { worker, task } => {
            if 0 <= worker < r.seats.len() && r.seats[worker].state is Running
                && r.seats[worker].task is None {
                if r.queue.contains(task) {
                    let seat = Seat { state: r.seats[worker].state.after(true), task: Some(task) };
                    PoolRun {
                        queue: r.queue.remove(task),
                        seats: r.seats.update(worker, seat),
                        ..r
                    }
                } else if r.queue.len() == 0 && !r.open {
                    let seat = Seat { state: r.seats[worker].state.after(false), task: None };
                    PoolRun { seats: r.seats.update(worker, seat), ..r }
                } else {
                    r
                }
            } else {
                r
            }
        },
        Step::Finish { worker } => {
            if 0 <= worker < r.seats.len() && r.seats[worker].task is Some {
                let seat = Seat { state: r.seats[worker].state, task: None };
                PoolRun {
                    seats: r.seats.update(worker, seat),
                    finished: r.finished.insert(r.seats[worker].task->0),
                    ..r
                }
            } else {
                r
            }
        },
        Step::Fail { worker } => {
            if 0 <= worker < r.seats.len() && r.seats[worker].task is Some {
                let seat = Seat { state: WorkerState::Terminated, task: None };
                PoolRun {
                    seats: r.seats.update(worker, seat),
                    failed: r.failed.insert(r.seats[worker].task->0),
                    ..r
                }
            } else {
                r
            }
        },
        Step::Shutdown => PoolRun { open: false, ..r },
    }
}

/// The state after the given steps, taken in order.
pub open spec fn run(start: PoolRun, steps: Seq<Step>) -> PoolRun
    decreases steps.len(),
{
    if steps.len() == 0 {
        start
    } else {
        next(run(start, steps.drop_last()), steps.last())
    }
}

/// What holds of every state that a pool of `n` workers can reach.
///
/// Every accepted task is in the queue, in a worker's hands, finished or
/// failed, and nowhere twice. A terminated worker holds no task. Each failed
/// task has cost one worker and no more. A worker that is missing without a
/// failed task to account for it got the closed signal, which is given only
/// when the pool is closed and the queue is drained; so while the pool is
/// open, the only workers missing are those lost to a failed task.
pub open spec fn consistent(r: PoolRun, n: nat) -> bool {
    &&& r.seats.len() == n
    &&& r.accepted =~= r.queue.add(executing(r.seats)).add(r.finished).add(r.failed)
    &&& forall|i: int|
        0 <= i < r.seats.len() && (#[trigger] r.seats[i]).state is Terminated ==> r.seats[i].task
            is None
    &&& alive(r.seats) + r.failed.len() <= n
    &&& alive(r.seats) + r.failed.len() < n ==> !r.open && r.queue.len() == 0
}

/// Shutdown has completed: the pool is closed and every worker has
/// terminated, so every join has returned.
pub open spec fn shut_down(r: PoolRun) -> bool {
    &&& !r.open
    &&& forall|i: int| 0 <= i < r.seats.len() ==> (#[trigger] r.seats[i]).state is Terminated
}

/// The steps of a shutdown with no work: the pool releases its endpoint,
/// then each of the first `k` workers receives once.
pub open spec fn idle_shutdown(k: nat) -> Seq<Step> {
    seq![Step::Shutdown] + Seq::new(k, |i: int| Step::Receive { worker: i, task: 0 })
}

/// How far a closed pool is from the end of its shutdown: each queued task
/// has to be received and finished, each executing task has to be finished,
/// and each worker has to get the closed signal.
pub open spec fn work_left(r: PoolRun) -> nat {
    2 * r.queue.len() + executing(r.seats).len() + alive(r.seats)
}

/// A step of a worker, as opposed to one of the pool's callers.
pub open spec fn by_worker(step: Step) -> bool {
    step is Receive || step is Finish || step is Fail
}

/// Replacing one worker changes the executing tasks by that worker's task
/// alone.
proof fn lemma_executing_update(seats: Seq<Seat>, i: int, seat: Seat)
    requires
        0 <= i < seats.len(),
    ensures
        executing(seats.update(i, seat)).add(bag(seats[i].task)) =~= executing(seats).add(
            bag(seat.task),
        ),
    decreases seats.len(),
{
    let changed = seats.update(i, seat);
    assert(executing(seats) == executing(seats.drop_last()).add(bag(seats.last().task)));
    assert(executing(changed) == executing(changed.drop_last()).add(bag(changed.last().task)));
    if i == seats.len() - 1 {
        assert(changed.drop_last() =~= seats.drop_last());
    } else {
        assert(changed.drop_last() =~= seats.drop_last().update(i, seat));
        assert(seats.drop_last()[i] == seats[i]);
        lemma_executing_update(seats.drop_last(), i, seat);
        let inner_before = executing(seats.drop_last()).add(bag(seat.task));
        let inner_after = executing(changed.drop_last()).add(bag(seats[i].task));
        assert forall|t: nat|
            executing(changed).add(bag(seats[i].task)).count(t) == executing(seats).add(
                bag(seat.task),
            ).count(t) by {
            assert(inner_after.count(t) == inner_before.count(t));
        }
    }
}

/// Replacing one worker changes the number of live workers by that worker
/// alone.
proof fn lemma_alive_update(seats: Seq<Seat>, i: int, seat: Seat)
    requires
        0 <= i < seats.len(),
    ensures
        alive(seats.update(i, seat)) + one_if_running(seats[i].state) == alive(seats)
            + one_if_running(seat.state),
    decreases seats.len(),
{
    let changed = seats.update(i, seat);
    if i == seats.len() - 1 {
        assert(changed.drop_last() =~= seats.drop_last());
    } else {
        assert(changed.drop_last() =~= seats.drop_last().update(i, seat));
        assert(seats.drop_last()[i] == seats[i]);
        lemma_alive_update(seats.drop_last(), i, seat);
    }
}

/// Workers with empty hands execute nothing.
proof fn lemma_executing_idle(seats: Seq<Seat>)
    requires
        forall|i: int| 0 <= i < seats.len() ==> (#[trigger] seats[i]).task is None,
    ensures
        executing(seats) =~= Multiset::empty(),
    decreases seats.len(),
{
    if seats.len() > 0 {
        lemma_executing_idle(seats.drop_last());
    }
}

/// No more tasks are executing than there are workers.
proof fn lemma_executing_bound(seats: Seq<Seat>)
    ensures
        executing(seats).len() <= seats.len(),
    decreases seats.len(),
{
    if seats.len() > 0 {
        lemma_executing_bound(seats.drop_last());
    }
}

/// Where every worker is running, every worker is alive.
proof fn lemma_alive_all(seats: Seq<Seat>)
    requires
        forall|i: int| 0 <= i < seats.len() ==> (#[trigger] seats[i]).state is Running,
    ensures
        alive(seats) == seats.len(),
    decreases seats.len(),
{
    if seats.len() > 0 {
        lemma_alive_all(seats.drop_last());
    }
}

/// Where every worker has terminated, none is alive.
proof fn lemma_alive_none(seats: Seq<Seat>)
    requires
        forall|i: int| 0 <= i < seats.len() ==> (#[trigger] seats[i]).state is Terminated,
    ensures
        alive(seats) == 0,
    decreases seats.len(),
{
    if seats.len() > 0 {
        lemma_alive_none(seats.drop_last());
    }
}

/// Where a worker is alive, the queue has a consumer.
proof fn lemma_alive_has_consumer(seats: Seq<Seat>)
    requires
        alive(seats) > 0,
    ensures
        has_consumer(seats),
    decreases seats.len(),
{
    if seats.last().state is Running {
        assert(seats[seats.len() - 1].state is Running);
    } else {
        lemma_alive_has_consumer(seats.drop_last());
        let i = choose|i: int|
            0 <= i < seats.drop_last().len() && (#[trigger] seats.drop_last()[i]).state is Running;
        assert(seats[i].state is Running);
    }
}

/// A step that moves one task between the queue, one worker, the finished
/// and the failed tasks loses none and makes none up.
proof fn lemma_step_keeps_count(r: PoolRun, after: PoolRun, worker: int)
    requires
        0 <= worker < r.seats.len(),
        after.seats == r.seats.update(worker, after.seats[worker]),
        r.accepted =~= r.queue.add(executing(r.seats)).add(r.finished).add(r.failed),
        after.accepted == r.accepted,
        after.queue.add(bag(after.seats[worker].task)).add(after.finished).add(after.failed)
            =~= r.queue.add(bag(r.seats[worker].task)).add(r.finished).add(r.failed),
    ensures
        after.accepted =~= after.queue.add(executing(after.seats)).add(after.finished).add(
            after.failed,
        ),
{
    lemma_executing_update(r.seats, worker, after.seats[worker]);
    let moved_before = r.queue.add(bag(r.seats[worker].task)).add(r.finished).add(r.failed);
    let moved_after = after.queue.add(bag(after.seats[worker].task)).add(after.finished).add(
        after.failed,
    );
    let held_before = executing(r.seats).add(bag(after.seats[worker].task));
    let held_after = executing(after.seats).add(bag(r.seats[worker].task));
    assert forall|t: nat|
        after.accepted.count(t) == after.queue.add(executing(after.seats)).add(
            after.finished,
        ).add(after.failed).count(t) by {
        assert(moved_before.count(t) == moved_after.count(t));
        assert(held_before.count(t) == held_after.count(t));
    }
}

/// Steps taken one after the other are steps taken in one go.
pub proof fn lemma_run_append(start: PoolRun, first: Seq<Step>, then: Seq<Step>)
    ensures
        run(start, first + then) == run(run(start, first), then),
    decreases then.len(),
{
    if then.len() == 0 {
        assert(first + then =~= first);
    } else {
        assert((first + then).drop_last() =~= first + then.drop_last());
        lemma_run_append(start, first, then.drop_last());
    }
}

/// A fresh pool is consistent.
pub proof fn lemma_init_consistent(n: nat)
    ensures
        consistent(init(n), n),
{
    lemma_executing_idle(init(n).seats);
    lemma_alive_all(init(n).seats);
}

/// Every step keeps a pool consistent.
pub proof fn lemma_next_consistent(r: PoolRun, n: nat, step: Step)
    requires
        consistent(r, n),
    ensures
        consistent(next(r, step), n),
{
    let after = next(r, step);
    if after != r {
        match step {
            Step::Submit { task } => {
                assert(after.seats == r.seats);
            },
            Step::Receive { worker, task } => {
                lemma_alive_update(r.seats, worker, after.seats[worker]);
                if r.queue.contains(task) {
                    assert(r.queue.len() > 0) by {
                        vstd::multiset::axiom_count_le_len(r.queue, task);
                    }
                }
                lemma_step_keeps_count(r, after, worker);
            },
            Step::Finish { worker } => {
                lemma_alive_update(r.seats, worker, after.seats[worker]);
                lemma_step_keeps_count(r, after, worker);
            },
            Step::Fail { worker } => {
                lemma_alive_update(r.seats, worker, after.seats[worker]);
                lemma_step_keeps_count(r, after, worker);
            },
            Step::Shutdown => {},
        }
    }
}

/// Every state that a pool of `n` workers reaches is consistent.
pub proof fn lemma_run_consistent(n: nat, steps: Seq<Step>)
    ensures
        consistent(run(init(n), steps), n),
    decreases steps.len(),
{
    if steps.len() == 0 {
        lemma_init_consistent(n);
    } else {
        lemma_run_consistent(n, steps.drop_last());
        lemma_next_consistent(run(init(n), steps.drop_last()), n, steps.last());
    }
}

/// Every task is accounted for: at any moment of any run, each accepted task
/// is in the queue, in a worker's hands, finished or failed, as often as it
/// was submitted and nowhere twice.
pub proof fn law_tasks_accounted_for(n: nat, steps: Seq<Step>)
    ensures
        ({
            let r = run(init(n), steps);
            r.accepted =~= r.queue.add(executing(r.seats)).add(r.finished).add(r.failed)
        }),
{
    lemma_run_consistent(n, steps);
}

/// Drain, whatever failed: once shutdown has completed, and as long as not
/// every worker was lost to a failed task, the queue is empty and every
/// accepted task has either been run to completion or has failed, each as
/// often as it was submitted. A failed task takes nothing with it but itself:
/// the tasks around it are run by the workers that are left.
pub proof fn law_shutdown_drains_all_but_failed(n: nat, steps: Seq<Step>)
    requires
        shut_down(run(init(n), steps)),
        run(init(n), steps).failed.len() < n,
    ensures
        run(init(n), steps).finished.add(run(init(n), steps).failed) =~= run(
            init(n),
            steps,
        ).accepted,
        run(init(n), steps).queue.len() == 0,
{
    let r = run(init(n), steps);
    lemma_run_consistent(n, steps);
    lemma_alive_none(r.seats);
    lemma_executing_idle(r.seats);
    vstd::multiset::lemma_multiset_empty_len(r.queue);
}

/// Drain: whatever the submitters and the workers did and in whatever order,
/// once shutdown has completed and no task has failed, the tasks that were
/// run are exactly the tasks that were accepted, each as often as it was
/// submitted. None is lost, none runs twice, and none is left in the queue.
pub proof fn law_shutdown_drains(n: nat, steps: Seq<Step>)
    requires
        n >= 1,
        shut_down(run(init(n), steps)),
        run(init(n), steps).failed.len() == 0,
    ensures
        run(init(n), steps).finished =~= run(init(n), steps).accepted,
        run(init(n), steps).queue.len() == 0,
{
    law_shutdown_drains_all_but_failed(n, steps);
    vstd::multiset::lemma_multiset_empty_len(run(init(n), steps).failed);
}

/// A failed task costs one worker and no more: while the pool is open, the
/// workers that are alive are all but one for each task that has failed.
pub proof fn law_failure_costs_one_worker(n: nat, steps: Seq<Step>)
    requires
        run(init(n), steps).open,
    ensures
        alive(run(init(n), steps).seats) + run(init(n), steps).failed.len() == n,
{
    lemma_run_consistent(n, steps);
}

/// Concurrency bound: in every state that a pool of `n` workers reaches, at
/// most `n` tasks are executing.
pub proof fn law_concurrency_bound(n: nat, steps: Seq<Step>)
    ensures
        executing(run(init(n), steps).seats).len() <= n,
{
    lemma_run_consistent(n, steps);
    lemma_executing_bound(run(init(n), steps).seats);
}

/// Shutdown is idempotent: a second shutdown changes nothing, and a pool
/// whose shutdown has completed stays that way.
pub proof fn law_shutdown_idempotent(r: PoolRun)
    ensures
        !next(r, Step::Shutdown).open,
        next(next(r, Step::Shutdown), Step::Shutdown) == next(r, Step::Shutdown),
        shut_down(r) ==> next(r, Step::Shutdown) == r,
{
}

/// After shutdown has begun a submission is refused and leaves no trace.
pub proof fn law_closed_pool_refuses(r: PoolRun, task: nat)
    ensures
        next(next(r, Step::Shutdown), Step::Submit { task }) == next(r, Step::Shutdown),
{
}

/// While the pool is open and not every worker has been lost to a failed
/// task, the queue has a consumer and takes whatever is submitted. Without
/// failures that is every open pool of at least one worker.
pub proof fn law_open_pool_accepts(n: nat, steps: Seq<Step>, task: nat)
    requires
        run(init(n), steps).open,
        run(init(n), steps).failed.len() < n,
    ensures
        submit_outcome(run(init(n), steps).open, has_consumer(run(init(n), steps).seats)) is Ok,
        next(run(init(n), steps), Step::Submit { task }).accepted == run(
            init(n),
            steps,
        ).accepted.insert(task),
{
    lemma_run_consistent(n, steps);
    lemma_alive_has_consumer(run(init(n), steps).seats);
}

/// A failure is local: it costs the task that failed and the worker that
/// was executing it, and touches nothing else. What is queued stays queued,
/// and every other worker goes on as before.
pub proof fn law_failure_is_local(r: PoolRun, worker: int)
    ensures
        ({
            let after = next(r, Step::Fail { worker });
            &&& after.open == r.open
            &&& after.queue == r.queue
            &&& after.accepted == r.accepted
            &&& after.finished == r.finished
            &&& after.seats.len() == r.seats.len()
            &&& forall|i: int| 0 <= i < r.seats.len() && i != worker ==> after.seats[i] == r.seats[i]
        }),
{
}

/// The state in the middle of a shutdown with no work: the first `k`
/// workers have terminated, the others are running and idle.
proof fn lemma_idle_shutdown_prefix(n: nat, k: nat)
    requires
        k <= n,
    ensures
        ({
            let r = run(init(n), idle_shutdown(k));
            &&& !r.open
            &&& r.queue =~= Multiset::empty()
            &&& r.accepted =~= Multiset::empty()
            &&& r.finished =~= Multiset::empty()
            &&& r.failed =~= Multiset::empty()
            &&& r.seats.len() == n
            &&& forall|i: int|
                0 <= i < n ==> (#[trigger] r.seats[i]) == (Seat {
                    state: if i < k {
                        WorkerState::Terminated
                    } else {
                        WorkerState::Running
                    },
                    task: None,
                })
        }),
    decreases k,
{
    let steps = idle_shutdown(k);
    if k == 0 {
        assert(steps.drop_last() =~= Seq::<Step>::empty());
        assert(steps.last() == Step::Shutdown);
        assert(run(init(n), steps.drop_last()) == init(n));
    } else {
        let before = (k - 1) as nat;
        assert(steps.drop_last() =~= idle_shutdown(before));
        assert(steps.last() == Step::Receive { worker: before as int, task: 0 });
        lemma_idle_shutdown_prefix(n, before);
        let r = run(init(n), idle_shutdown(before));
        assert(r.seats[before as int].state is Running);
        assert(!r.queue.contains(0nat));
        vstd::multiset::lemma_multiset_empty_len(r.queue);
    }
}

/// Shutdown with no work: when no task was ever submitted, shutdown
/// completes as soon as each worker has received once. Every worker gets the
/// closed signal on its first receive, and no task is run.
pub proof fn law_idle_shutdown(n: nat)
    ensures
        shut_down(run(init(n), idle_shutdown(n))),
        run(init(n), idle_shutdown(n)).finished =~= Multiset::empty(),
{
    lemma_idle_shutdown_prefix(n, n);
}

/// After shutdown has begun, every step of a worker that changes anything
/// brings the end of the shutdown nearer.
pub proof fn law_worker_step_makes_progress(r: PoolRun, n: nat, step: Step)
    requires
        consistent(r, n),
        !r.open,
        by_worker(step),
        next(r, step) != r,
    ensures
        work_left(next(r, step)) < work_left(r),
{
    let after = next(r, step);
    match step {
        Step::Receive { worker, task } => {
            lemma_executing_update(r.seats, worker, after.seats[worker]);
            lemma_alive_update(r.seats, worker, after.seats[worker]);
            if r.queue.contains(task) {
                assert(r.queue =~= after.queue.add(Multiset::singleton(task)));
                assert(executing(after.seats).add(bag(None)).len() == executing(r.seats).add(
                    bag(Some(task)),
                ).len());
            } else {
                assert(executing(after.seats).add(bag(None)).len() == executing(r.seats).add(
                    bag(None),
                ).len());
            }
        },
        Step::Finish { worker } => {
            lemma_executing_update(r.seats, worker, after.seats[worker]);
            lemma_alive_update(r.seats, worker, after.seats[worker]);
            assert(executing(after.seats).add(bag(r.seats[worker].task)).len() == executing(
                r.seats,
            ).add(bag(None)).len());
        },
        Step::Fail { worker } => {
            lemma_executing_update(r.seats, worker, after.seats[worker]);
            lemma_alive_update(r.seats, worker, after.seats[worker]);
            assert(executing(after.seats).add(bag(r.seats[worker].task)).len() == executing(
                r.seats,
            ).add(bag(None)).len());
        },
        _ => {},
    }
}

/// After shutdown has begun the pool is never stuck: until the shutdown has
/// completed, some worker can receive or finish a task and so change the
/// state. The step is returned.
pub proof fn law_never_stuck(r: PoolRun, n: nat) -> (step: Step)
    requires
        consistent(r, n),
        !r.open,
        !shut_down(r),
    ensures
        step is Receive || step is Finish,
        next(r, step) != r,
{
    if exists|i: int| 0 <= i < r.seats.len() && (#[trigger] r.seats[i]).task is Some {
        let i = choose|i: int| 0 <= i < r.seats.len() && (#[trigger] r.seats[i]).task is Some;
        let step = Step::Finish { worker: i };
        assert(next(r, step).seats[i] != r.seats[i]);
        step
    } else {
        let i = choose|i: int|
            0 <= i < r.seats.len() && !((#[trigger] r.seats[i]).state is Terminated);
        if r.queue.len() > 0 {
            let task = r.queue.choose();
            let step = Step::Receive { worker: i, task };
            assert(next(r, step).seats[i] != r.seats[i]);
            step
        } else {
            let step = Step::Receive { worker: i, task: 0 };
            assert(!r.queue.contains(0nat)) by {
                vstd::multiset::axiom_count_le_len(r.queue, 0nat);
            }
            assert(next(r, step).seats[i] != r.seats[i]);
            step
        }
    }
}

/// A closed pool can always be brought to the end of its shutdown by its
/// workers alone, without a task failing on the way.
proof fn lemma_drain(r: PoolRun, n: nat) -> (rest: Seq<Step>)
    requires
        consistent(r, n),
        !r.open,
    ensures
        shut_down(run(r, rest)),
        forall|i: int| 0 <= i < rest.len() ==> (#[trigger] rest[i]) is Receive || rest[i] is Finish,
    decreases work_left(r),
{
    if shut_down(r) {
        Seq::empty()
    } else {
        let step = law_never_stuck(r, n);
        law_worker_step_makes_progress(r, n, step);
        lemma_next_consistent(r, n, step);
        let later = lemma_drain(next(r, step), n);
        lemma_run_append(r, seq![step], later);
        assert(seq![step].drop_last() =~= Seq::<Step>::empty());
        assert(run(r, Seq::<Step>::empty()) == r);
        assert(seq![step].last() == step);
        assert(run(r, seq![step]) == next(r, step));
        seq![step] + later
    }
}

/// Shutdown completes: whatever a pool has been through, once shutdown
/// begins its workers can bring it to an end without anyone's help, by
/// receiving and finishing what is still queued. The steps that do so are
/// returned.
pub proof fn law_shutdown_completes(n: nat, steps: Seq<Step>) -> (rest: Seq<Step>)
    ensures
        shut_down(run(init(n), steps.push(Step::Shutdown) + rest)),
        forall|i: int| 0 <= i < rest.len() ==> (#[trigger] rest[i]) is Receive || rest[i] is Finish,
{
    let begun = steps.push(Step::Shutdown);
    lemma_run_consistent(n, begun);
    assert(begun.drop_last() =~= steps);
    let rest = lemma_drain(run(init(n), begun), n);
    lemma_run_append(init(n), begun, rest);
    rest
}

} // verus!
