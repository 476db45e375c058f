use vstd::prelude::*;
use crate::types::{FlowType, SubmitError, WorkerStep};
use crate::state::{SchedulerView, other_class, preferred_class};
use crate::workload::{scenario_flow, work_millis, pacing_millis, flow_name};

verus! {

// What each operation of the scheduler does, stated field by field over the
// model, and what the workload functions give, stated over whole input ranges.

/// A fresh scheduler built for `workers` workers has empty queues, zeroed
/// counters, is running, and records exactly `workers` workers, none exited;
/// so its first shutdown wakes `workers` workers.
pub proof fn lemma_initial_state<T>(workers: nat)
    ensures
        ({
            let s = SchedulerView::<T>::initial(workers);
            &&& s.mouse_queue.len() == 0
            &&& s.elephant_queue.len() == 0
            &&& s.interval_mouse_arrivals == 0
            &&& s.interval_elephant_arrivals == 0
            &&& s.interval_tasks_completed == 0
            &&& !s.is_shutdown
            &&& s.workers == workers
            &&& s.exited_workers == 0
            &&& s.after_shutdown().pending_wakeups() == workers
        }),
{
}

/// The class helpers: the queue and the counter of each class, the other
/// class, and the class served first under each load.
pub proof fn lemma_class_helpers<T>(s: SchedulerView<T>)
    ensures
        s.queue(FlowType::Mouse) == s.mouse_queue,
        s.queue(FlowType::Elephant) == s.elephant_queue,
        s.arrivals(FlowType::Mouse) == s.interval_mouse_arrivals,
        s.arrivals(FlowType::Elephant) == s.interval_elephant_arrivals,
        other_class(FlowType::Mouse) == FlowType::Elephant,
        other_class(FlowType::Elephant) == FlowType::Mouse,
        preferred_class(true) == FlowType::Elephant,
        preferred_class(false) == FlowType::Mouse,
        s.queued() == s.mouse_queue.len() + s.elephant_queue.len(),
{
}

/// Pending wake-ups: one per queued task, plus, once shutdown has begun, one
/// per worker that has not exited.
pub proof fn lemma_pending_wakeups<T>(s: SchedulerView<T>)
    requires
        s.exited_workers <= s.workers,
    ensures
        !s.is_shutdown ==> s.pending_wakeups() == s.mouse_queue.len() + s.elephant_queue.len(),
        s.is_shutdown ==> s.pending_wakeups() == s.mouse_queue.len() + s.elephant_queue.len()
            + s.workers - s.exited_workers,
{
}

/// The invariant, spelled out: no more workers have exited than there are;
/// none has exited before shutdown; and once one has exited after shutdown,
/// both queues are empty. Live workers are those that have not exited.
pub proof fn lemma_invariant_meaning<T>(s: SchedulerView<T>)
    ensures
        s.inv() == (s.exited_workers <= s.workers && (!s.is_shutdown ==> s.exited_workers == 0)
            && (s.is_shutdown && s.exited_workers > 0 ==> s.mouse_queue.len() == 0
            && s.elephant_queue.len() == 0)),
        s.exited_workers <= s.workers ==> s.live_workers() + s.exited_workers == s.workers,
{
}

/// The queued tasks of both classes together: each task counted as often as
/// it waits in the mouse queue plus in the elephant queue.
pub proof fn lemma_all_queued<T>(s: SchedulerView<T>, x: T)
    ensures
        s.all_queued().count(x) == s.mouse_queue.to_multiset().count(x)
            + s.elephant_queue.to_multiset().count(x),
        s.all_queued().len() == s.mouse_queue.len() + s.elephant_queue.len(),
{
    broadcast use vstd::seq_lib::group_to_multiset_ensures;

}

/// Submission, field by field: refused as shut down once shutdown has begun;
/// otherwise an elephant is refused as overloaded exactly when the system is
/// overloaded; a refusal changes nothing; an accepted task is appended to its
/// own class queue, that class's arrival counter goes up by one, and nothing
/// else changes.
pub proof fn lemma_submit_behaviour<T>(
    s: SchedulerView<T>,
    flow: FlowType,
    task: T,
    overloaded: bool,
)
    ensures
        s.is_shutdown ==> s.submit_outcome(flow, overloaded) == Err::<(), SubmitError>(
            SubmitError::ShutDown,
        ) && s.after_submit(flow, task, overloaded) == s,
        !s.is_shutdown && overloaded && flow == FlowType::Elephant ==> s.submit_outcome(
            flow,
            overloaded,
        ) == Err::<(), SubmitError>(SubmitError::Overloaded) && s.after_submit(
            flow,
            task,
            overloaded,
        ) == s,
        !s.is_shutdown && flow == FlowType::Mouse ==> ({
            let a = s.after_submit(flow, task, overloaded);
            &&& s.submit_outcome(flow, overloaded) == Ok::<(), SubmitError>(())
            &&& a.mouse_queue == s.mouse_queue.push(task)
            &&& a.elephant_queue == s.elephant_queue
            &&& a.interval_mouse_arrivals == s.interval_mouse_arrivals + 1
            &&& a.interval_elephant_arrivals == s.interval_elephant_arrivals
            &&& a.interval_tasks_completed == s.interval_tasks_completed
            &&& a.is_shutdown == s.is_shutdown
            &&& a.workers == s.workers
            &&& a.exited_workers == s.exited_workers
        }),
        !s.is_shutdown && !overloaded && flow == FlowType::Elephant ==> ({
            let a = s.after_submit(flow, task, overloaded);
            &&& s.submit_outcome(flow, overloaded) == Ok::<(), SubmitError>(())
            &&& a.elephant_queue == s.elephant_queue.push(task)
            &&& a.mouse_queue == s.mouse_queue
            &&& a.interval_elephant_arrivals == s.interval_elephant_arrivals + 1
            &&& a.interval_mouse_arrivals == s.interval_mouse_arrivals
            &&& a.interval_tasks_completed == s.interval_tasks_completed
            &&& a.is_shutdown == s.is_shutdown
            &&& a.workers == s.workers
            &&& a.exited_workers == s.exited_workers
        }),
{
}

/// Whether `a` equals `s` but for its two queues.
pub open spec fn same_but_queues<T>(a: SchedulerView<T>, s: SchedulerView<T>) -> bool {
    &&& a.interval_mouse_arrivals == s.interval_mouse_arrivals
    &&& a.interval_elephant_arrivals == s.interval_elephant_arrivals
    &&& a.interval_tasks_completed == s.interval_tasks_completed
    &&& a.is_shutdown == s.is_shutdown
    &&& a.workers == s.workers
    &&& a.exited_workers == s.exited_workers
}

/// A woken worker's step, field by field: after shutdown with both queues
/// empty it exits and the exited count goes up by one; otherwise it takes the
/// front task of the elephant queue under light load and of the mouse queue
/// under heavy load, falling back to the other queue only when that one is
/// empty; the task leaves its queue and nothing else changes.
pub proof fn lemma_dispatch_behaviour<T>(s: SchedulerView<T>, light_load: bool)
    ensures
        s.is_shutdown && s.mouse_queue.len() == 0 && s.elephant_queue.len() == 0 ==> ({
            let a = s.after_dispatch(light_load);
            &&& s.dispatch_step(light_load) == WorkerStep::<T>::Exit
            &&& a.mouse_queue == s.mouse_queue
            &&& a.elephant_queue == s.elephant_queue
            &&& a.interval_mouse_arrivals == s.interval_mouse_arrivals
            &&& a.interval_elephant_arrivals == s.interval_elephant_arrivals
            &&& a.interval_tasks_completed == s.interval_tasks_completed
            &&& a.is_shutdown == s.is_shutdown
            &&& a.workers == s.workers
            &&& a.exited_workers == s.exited_workers + 1
        }),
        light_load && s.elephant_queue.len() > 0 ==> ({
            let a = s.after_dispatch(light_load);
            &&& s.dispatch_step(light_load) == WorkerStep::Run(
                FlowType::Elephant,
                s.elephant_queue[0],
            )
            &&& a.elephant_queue == s.elephant_queue.subrange(1, s.elephant_queue.len() as int)
            &&& a.mouse_queue == s.mouse_queue
            &&& same_but_queues(a, s)
        }),
        light_load && s.elephant_queue.len() == 0 && s.mouse_queue.len() > 0 ==> ({
            let a = s.after_dispatch(light_load);
            &&& s.dispatch_step(light_load) == WorkerStep::Run(FlowType::Mouse, s.mouse_queue[0])
            &&& a.mouse_queue == s.mouse_queue.subrange(1, s.mouse_queue.len() as int)
            &&& a.elephant_queue == s.elephant_queue
            &&& same_but_queues(a, s)
        }),
        !light_load && s.mouse_queue.len() > 0 ==> ({
            let a = s.after_dispatch(light_load);
            &&& s.dispatch_step(light_load) == WorkerStep::Run(FlowType::Mouse, s.mouse_queue[0])
            &&& a.mouse_queue == s.mouse_queue.subrange(1, s.mouse_queue.len() as int)
            &&& a.elephant_queue == s.elephant_queue
            &&& same_but_queues(a, s)
        }),
        !light_load && s.mouse_queue.len() == 0 && s.elephant_queue.len() > 0 ==> ({
            let a = s.after_dispatch(light_load);
            &&& s.dispatch_step(light_load) == WorkerStep::Run(
                FlowType::Elephant,
                s.elephant_queue[0],
            )
            &&& a.elephant_queue == s.elephant_queue.subrange(1, s.elephant_queue.len() as int)
            &&& a.mouse_queue == s.mouse_queue
            &&& same_but_queues(a, s)
        }),
{
}

/// Shutdown sets the shutdown flag and changes nothing else; recording a
/// finished task raises the interval's completed count by exactly one and
/// changes nothing else; clearing the interval zeroes the three counters and
/// changes nothing else.
pub proof fn lemma_shutdown_completion_reset<T>(s: SchedulerView<T>)
    ensures
        ({
            let a = s.after_shutdown();
            &&& a.is_shutdown
            &&& a.mouse_queue == s.mouse_queue
            &&& a.elephant_queue == s.elephant_queue
            &&& a.interval_mouse_arrivals == s.interval_mouse_arrivals
            &&& a.interval_elephant_arrivals == s.interval_elephant_arrivals
            &&& a.interval_tasks_completed == s.interval_tasks_completed
            &&& a.workers == s.workers
            &&& a.exited_workers == s.exited_workers
        }),
        ({
            let a = s.after_completion();
            &&& a.interval_tasks_completed == s.interval_tasks_completed + 1
            &&& a.mouse_queue == s.mouse_queue
            &&& a.elephant_queue == s.elephant_queue
            &&& a.interval_mouse_arrivals == s.interval_mouse_arrivals
            &&& a.interval_elephant_arrivals == s.interval_elephant_arrivals
            &&& a.is_shutdown == s.is_shutdown
            &&& a.workers == s.workers
            &&& a.exited_workers == s.exited_workers
        }),
        ({
            let a = s.after_interval_reset();
            &&& a.interval_mouse_arrivals == 0
            &&& a.interval_elephant_arrivals == 0
            &&& a.interval_tasks_completed == 0
            &&& a.mouse_queue == s.mouse_queue
            &&& a.elephant_queue == s.elephant_queue
            &&& a.is_shutdown == s.is_shutdown
            &&& a.workers == s.workers
            &&& a.exited_workers == s.exited_workers
        }),
{
}

/// The messages a refused submission is answered with.
pub proof fn lemma_refusal_messages()
    ensures
        SubmitError::ShutDown.text() == "Scheduler is shut down",
        SubmitError::Overloaded.text() == "Overload: Elephant flow rejected",
{
}

/// The workload's class mix: the `i`-th task is an elephant flow exactly when
/// `i` is a multiple of `mouse_ratio_mod`, and a mouse flow otherwise.
pub proof fn lemma_scenario_flow(i: nat, mouse_ratio_mod: nat)
    requires
        mouse_ratio_mod > 0,
    ensures
        (scenario_flow(i, mouse_ratio_mod) == FlowType::Elephant) == (i % mouse_ratio_mod == 0),
        (scenario_flow(i, mouse_ratio_mod) == FlowType::Mouse) == (i % mouse_ratio_mod != 0),
{
}

/// Work durations and class names: a mouse task works 5 ms and an elephant
/// task 50 ms, ten times as long; the names are "Mouse" and "Elephant".
pub proof fn lemma_work_and_names(f: FlowType)
    ensures
        f == FlowType::Mouse ==> work_millis(f) == 5,
        f == FlowType::Elephant ==> work_millis(f) == 50,
        work_millis(FlowType::Elephant) == 10 * work_millis(FlowType::Mouse),
        flow_name(FlowType::Mouse) == "Mouse",
        flow_name(FlowType::Elephant) == "Elephant",
{
}

/// Pacing over whole ranges of elapsed time: 10 ms for every time below 3 s,
/// 3 ms for every time in [3 s, 6 s), and 1 ms from 6 s on; the pause never
/// grows as time passes.
pub proof fn lemma_pacing(e: u128, later: u128)
    ensures
        e < 3_000_000_000 ==> pacing_millis(e) == 10,
        3_000_000_000 <= e < 6_000_000_000 ==> pacing_millis(e) == 3,
        6_000_000_000 <= e ==> pacing_millis(e) == 1,
        e <= later ==> pacing_millis(later) <= pacing_millis(e),
{
}

} // verus!
