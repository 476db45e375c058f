use vstd::prelude::*;
use crate::types::{FlowType, SubmitError, WorkerStep};
use crate::state::{SchedulerView, preferred_class};
use crate::sjf::SjfTask;
use crate::sjf_queue::is_next_index;
use std::cmp::Ordering;

verus! {

/// A fresh scheduler satisfies the invariant.
pub proof fn lemma_initial_state_valid<T>(workers: nat)
    ensures
        SchedulerView::<T>::initial(workers).inv(),
{
}

/// Every operation keeps the invariant: submission, a woken worker's step,
/// shutdown, reporting a finished task and clearing the interval counters.
pub proof fn lemma_operations_keep_invariant<T>(
    s: SchedulerView<T>,
    flow: FlowType,
    task: T,
    overloaded: bool,
    light_load: bool,
)
    requires
        s.inv(),
    ensures
        s.after_submit(flow, task, overloaded).inv(),
        s.pending_wakeups() > 0 ==> s.after_dispatch(light_load).inv(),
        !s.is_shutdown ==> s.after_shutdown().inv(),
        s.after_completion().inv(),
        s.after_interval_reset().inv(),
{
}

/// A woken worker never comes away empty-handed: each wake-up yields the
/// front task of a queue, or, once shutdown has begun and both queues are
/// empty, the signal to leave. Each step takes exactly one wake-up.
pub proof fn lemma_wakeup_yields_task_or_exit<T>(s: SchedulerView<T>, light_load: bool)
    requires
        s.inv(),
        s.pending_wakeups() > 0,
    ensures
        match s.dispatch_step(light_load) {
            WorkerStep::Exit => s.is_shutdown && s.queued() == 0,
            WorkerStep::Run(f, t) => s.queue(f).len() > 0 && t == s.queue(f)[0],
        },
        s.after_dispatch(light_load).pending_wakeups() + 1 == s.pending_wakeups(),
{
}

/// Each accepted submission issues exactly one wake-up; a refused one
/// changes nothing.
pub proof fn lemma_submission_wakes_one_worker<T>(
    s: SchedulerView<T>,
    flow: FlowType,
    task: T,
    overloaded: bool,
)
    requires
        s.inv(),
    ensures
        s.submit_outcome(flow, overloaded) is Ok ==> s.after_submit(
            flow,
            task,
            overloaded,
        ).pending_wakeups() == s.pending_wakeups() + 1,
        s.submit_outcome(flow, overloaded) is Err ==> s.after_submit(flow, task, overloaded) == s,
{
}

/// Shutdown issues one wake-up per worker.
pub proof fn lemma_shutdown_wakes_every_worker<T>(s: SchedulerView<T>)
    requires
        s.inv(),
        !s.is_shutdown,
    ensures
        s.after_shutdown().pending_wakeups() == s.pending_wakeups() + s.workers,
{
}

/// Once shutdown has begun every submission is refused as such, and the
/// state does not change.
pub proof fn lemma_refused_after_shutdown<T>(
    s: SchedulerView<T>,
    flow: FlowType,
    task: T,
    overloaded: bool,
)
    requires
        s.is_shutdown,
    ensures
        s.submit_outcome(flow, overloaded) == Err::<(), SubmitError>(SubmitError::ShutDown),
        s.after_submit(flow, task, overloaded) == s,
{
}

/// Overload admission control: while the scheduler runs, a mouse flow is
/// always accepted, and an elephant flow is refused exactly when the system
/// is overloaded.
pub proof fn lemma_admission_control<T>(s: SchedulerView<T>, overloaded: bool)
    requires
        !s.is_shutdown,
    ensures
        s.submit_outcome(FlowType::Mouse, overloaded) == Ok::<(), SubmitError>(()),
        s.submit_outcome(FlowType::Elephant, overloaded) == (if overloaded {
            Err::<(), SubmitError>(SubmitError::Overloaded)
        } else {
            Ok(())
        }),
{
}

/// Load-dependent priority: a worker takes a task of the class it does not
/// prefer (mice under light load, elephants under heavy load) only when the
/// preferred queue is empty.
pub proof fn lemma_dispatch_priority<T>(s: SchedulerView<T>, light_load: bool)
    requires
        s.inv(),
        s.pending_wakeups() > 0,
    ensures
        s.dispatch_step(light_load) matches WorkerStep::Run(f, _) ==> (f != preferred_class(
            light_load,
        ) ==> s.queue(preferred_class(light_load)).len() == 0),
{
}

/// No task is lost or duplicated: an accepted task joins the queued tasks,
/// a worker's step takes exactly the task it runs out of them, and a
/// refused submission or a worker leaving changes them not at all.
pub proof fn lemma_tasks_conserved<T>(
    s: SchedulerView<T>,
    flow: FlowType,
    task: T,
    overloaded: bool,
    light_load: bool,
)
    requires
        s.inv(),
    ensures
        s.submit_outcome(flow, overloaded) is Ok ==> s.after_submit(
            flow,
            task,
            overloaded,
        ).all_queued() == s.all_queued().insert(task),
        s.submit_outcome(flow, overloaded) is Err ==> s.after_submit(
            flow,
            task,
            overloaded,
        ).all_queued() == s.all_queued(),
        s.pending_wakeups() > 0 ==> match s.dispatch_step(light_load) {
            WorkerStep::Run(_, t) => s.after_dispatch(light_load).all_queued().insert(t)
                == s.all_queued(),
            WorkerStep::Exit => s.after_dispatch(light_load).all_queued() == s.all_queued(),
        },
{
    broadcast use vstd::seq_lib::group_to_multiset_ensures;

    let m = s.mouse_queue;
    let e = s.elephant_queue;
    if s.submit_outcome(flow, overloaded) is Ok {
        let a = s.after_submit(flow, task, overloaded);
        match flow {
            FlowType::Mouse => {
                assert(a.mouse_queue.to_multiset() =~= m.to_multiset().insert(task));
                assert(a.all_queued() =~= s.all_queued().insert(task));
            },
            FlowType::Elephant => {
                assert(a.elephant_queue.to_multiset() =~= e.to_multiset().insert(task));
                assert(a.all_queued() =~= s.all_queued().insert(task));
            },
        }
    }
    if s.pending_wakeups() > 0 && !s.worker_exits() {
        let f = s.dispatch_class(light_load);
        let d = s.after_dispatch(light_load);
        match f {
            FlowType::Mouse => {
                assert(m.drop_first() =~= m.remove(0));
                assert(d.mouse_queue.to_multiset() =~= m.to_multiset().remove(m[0]));
                assert(m.to_multiset().count(m[0]) > 0);
                assert(d.all_queued().insert(m[0]) =~= s.all_queued());
            },
            FlowType::Elephant => {
                assert(e.drop_first() =~= e.remove(0));
                assert(d.elephant_queue.to_multiset() =~= e.to_multiset().remove(e[0]));
                assert(e.to_multiset().count(e[0]) > 0);
                assert(d.all_queued().insert(e[0]) =~= s.all_queued());
            },
        }
    }
}

/// On an idle running scheduler, a task that is accepted and then taken by a
/// woken worker is the task that was submitted, and the queues are back to
/// what they were; only the arrival counter of its class went up by one.
pub proof fn lemma_accept_then_dispatch<T>(
    s: SchedulerView<T>,
    flow: FlowType,
    task: T,
    overloaded: bool,
    light_load: bool,
)
    requires
        s.inv(),
        !s.is_shutdown,
        s.queued() == 0,
        s.submit_outcome(flow, overloaded) is Ok,
    ensures
        ({
            let s1 = s.after_submit(flow, task, overloaded);
            let s2 = s1.after_dispatch(light_load);
            &&& s1.pending_wakeups() > 0
            &&& s1.dispatch_step(light_load) == WorkerStep::Run(flow, task)
            &&& s2.mouse_queue == s.mouse_queue
            &&& s2.elephant_queue == s.elephant_queue
            &&& s2.arrivals(flow) == s.arrivals(flow) + 1
        }),
{
    let s1 = s.after_submit(flow, task, overloaded);
    let s2 = s1.after_dispatch(light_load);
    match flow {
        FlowType::Mouse => {
            assert(s2.mouse_queue =~= s.mouse_queue);
        },
        FlowType::Elephant => {
            assert(s2.elephant_queue =~= s.elephant_queue);
        },
    }
}

/// An operation on the scheduler, as a step of a run.
pub enum SchedulerOp<T> {
    /// A submission of a task of a class, with whether the system is overloaded.
    Submit(FlowType, T, bool),
    /// A woken worker's step, with whether the load is light.
    Dispatch(bool),
    /// The start of shutdown.
    Shutdown,
    /// A worker reporting a finished task.
    Complete,
    /// The metrics loop reading and clearing the interval counters.
    ResetInterval,
}

/// The state after `op`.
pub open spec fn apply_op<T>(s: SchedulerView<T>, op: SchedulerOp<T>) -> SchedulerView<T> {
    match op {
        SchedulerOp::Submit(flow, task, overloaded) => s.after_submit(flow, task, overloaded),
        SchedulerOp::Dispatch(light_load) => s.after_dispatch(light_load),
        SchedulerOp::Shutdown => s.after_shutdown(),
        SchedulerOp::Complete => s.after_completion(),
        SchedulerOp::ResetInterval => s.after_interval_reset(),
    }
}

/// Whether `op` may happen in `s`: a worker steps only when woken, and
/// shutdown begins once.
pub open spec fn op_allowed<T>(s: SchedulerView<T>, op: SchedulerOp<T>) -> bool {
    match op {
        SchedulerOp::Dispatch(_) => s.pending_wakeups() > 0,
        SchedulerOp::Shutdown => !s.is_shutdown,
        _ => true,
    }
}

/// The state after the operations of `ops`, in order.
pub open spec fn run_ops<T>(s: SchedulerView<T>, ops: Seq<SchedulerOp<T>>) -> SchedulerView<T>
    decreases ops.len(),
{
    if ops.len() == 0 {
        s
    } else {
        run_ops(apply_op(s, ops.first()), ops.drop_first())
    }
}

/// Whether every operation of `ops` may happen when its turn comes.
pub open spec fn run_allowed<T>(s: SchedulerView<T>, ops: Seq<SchedulerOp<T>>) -> bool
    decreases ops.len(),
{
    if ops.len() == 0 {
        true
    } else {
        op_allowed(s, ops.first()) && run_allowed(apply_op(s, ops.first()), ops.drop_first())
    }
}

/// The task of class `f` that `op` accepts, if any.
pub open spec fn accepted_by<T>(s: SchedulerView<T>, op: SchedulerOp<T>, f: FlowType) -> Seq<T> {
    match op {
        SchedulerOp::Submit(flow, task, overloaded) => if flow == f && s.submit_outcome(
            flow,
            overloaded,
        ) is Ok {
            seq![task]
        } else {
            Seq::empty()
        },
        _ => Seq::empty(),
    }
}

/// The task of class `f` that `op` hands to a worker, if any.
pub open spec fn started_by<T>(s: SchedulerView<T>, op: SchedulerOp<T>, f: FlowType) -> Seq<T> {
    match op {
        SchedulerOp::Dispatch(light_load) => match s.dispatch_step(light_load) {
            WorkerStep::Run(g, t) => if g == f {
                seq![t]
            } else {
                Seq::empty()
            },
            WorkerStep::Exit => Seq::empty(),
        },
        _ => Seq::empty(),
    }
}

/// The tasks of class `f` accepted during `ops`, in order of acceptance.
pub open spec fn accepted_of<T>(s: SchedulerView<T>, ops: Seq<SchedulerOp<T>>, f: FlowType) -> Seq<
    T,
>
    decreases ops.len(),
{
    if ops.len() == 0 {
        Seq::empty()
    } else {
        accepted_by(s, ops.first(), f) + accepted_of(apply_op(s, ops.first()), ops.drop_first(), f)
    }
}

/// The tasks of class `f` handed to workers during `ops`, in order.
pub open spec fn started_of<T>(s: SchedulerView<T>, ops: Seq<SchedulerOp<T>>, f: FlowType) -> Seq<
    T,
>
    decreases ops.len(),
{
    if ops.len() == 0 {
        Seq::empty()
    } else {
        started_by(s, ops.first(), f) + started_of(apply_op(s, ops.first()), ops.drop_first(), f)
    }
}

/// One operation keeps the order of class `f`: the class queue with the task
/// the operation accepts appended equals the task it hands out followed by the
/// class queue afterwards.
proof fn lemma_fifo_step<T>(s: SchedulerView<T>, op: SchedulerOp<T>, f: FlowType)
    requires
        s.inv(),
        op_allowed(s, op),
    ensures
        s.queue(f) + accepted_by(s, op, f) == started_by(s, op, f) + apply_op(s, op).queue(f),
        apply_op(s, op).inv(),
{
    let s1 = apply_op(s, op);
    match op {
        SchedulerOp::Submit(flow, task, overloaded) => {
            lemma_operations_keep_invariant(s, flow, task, overloaded, true);
            if flow == f && s.submit_outcome(flow, overloaded) is Ok {
                assert(s.queue(f) + seq![task] =~= Seq::<T>::empty() + s1.queue(f));
            } else {
                assert(s.queue(f) + Seq::<T>::empty() =~= Seq::<T>::empty() + s1.queue(f));
            }
        },
        SchedulerOp::Dispatch(light_load) => {
            lemma_operations_keep_invariant(s, f, arbitrary(), false, light_load);
            match s.dispatch_step(light_load) {
                WorkerStep::Run(g, t) => {
                    if g == f {
                        assert(s.queue(f) + Seq::<T>::empty() =~= seq![t] + s1.queue(f));
                    } else {
                        assert(s.queue(f) + Seq::<T>::empty() =~= Seq::<T>::empty() + s1.queue(f));
                    }
                },
                WorkerStep::Exit => {
                    assert(s.queue(f) + Seq::<T>::empty() =~= Seq::<T>::empty() + s1.queue(f));
                },
            }
        },
        _ => {
            lemma_operations_keep_invariant(s, f, arbitrary(), false, true);
            assert(s.queue(f) + Seq::<T>::empty() =~= Seq::<T>::empty() + s1.queue(f));
        },
    }
}

/// Within one class, tasks start in the order they were accepted: over any
/// run, the tasks of class `f` handed to workers are, in order, a prefix of
/// the tasks of that class queued at the start followed by those accepted
/// during the run, and the class queue at the end holds exactly the rest.
pub proof fn lemma_fifo_within_class<T>(s: SchedulerView<T>, ops: Seq<SchedulerOp<T>>, f: FlowType)
    requires
        s.inv(),
        run_allowed(s, ops),
    ensures
        s.queue(f) + accepted_of(s, ops, f) == started_of(s, ops, f) + run_ops(s, ops).queue(f),
        started_of(s, ops, f).len() <= (s.queue(f) + accepted_of(s, ops, f)).len(),
        started_of(s, ops, f) == (s.queue(f) + accepted_of(s, ops, f)).subrange(
            0,
            started_of(s, ops, f).len() as int,
        ),
    decreases ops.len(),
{
    let whole = s.queue(f) + accepted_of(s, ops, f);
    let st = started_of(s, ops, f);
    let fin = run_ops(s, ops).queue(f);
    if ops.len() == 0 {
        assert(whole =~= st + fin);
    } else {
        let op = ops.first();
        let s1 = apply_op(s, op);
        let rest = ops.drop_first();
        lemma_fifo_step(s, op, f);
        lemma_fifo_within_class(s1, rest, f);
        let a = accepted_by(s, op, f);
        let b = started_by(s, op, f);
        let acc1 = accepted_of(s1, rest, f);
        let st1 = started_of(s1, rest, f);
        // s.queue(f) + a == b + s1.queue(f) and s1.queue(f) + acc1 == st1 + fin
        assert(whole =~= (s.queue(f) + a) + acc1);
        assert((b + s1.queue(f)) + acc1 =~= b + (s1.queue(f) + acc1));
        assert(st =~= b + st1);
        assert(b + (st1 + fin) =~= st + fin);
    }
    assert(whole.subrange(0, st.len() as int) =~= st);
}

/// Graceful shutdown: after shutdown a worker leaves only when both queues
/// are empty, and once every worker has left no task is queued and no
/// wake-up is pending: every accepted task was handed to a worker.
pub proof fn lemma_graceful_shutdown<T>(s: SchedulerView<T>, light_load: bool)
    requires
        s.inv(),
        s.is_shutdown,
    ensures
        s.pending_wakeups() > 0 && s.queued() > 0 ==> s.dispatch_step(light_load) is Run,
        s.live_workers() == 0 && s.workers > 0 ==> s.queued() == 0 && s.pending_wakeups() == 0,
{
}

/// Submits every task of `tasks`, in order, as class `flow`.
pub open spec fn submit_all<T>(
    s: SchedulerView<T>,
    flow: FlowType,
    tasks: Seq<T>,
    overloaded: bool,
) -> SchedulerView<T>
    decreases tasks.len(),
{
    if tasks.len() == 0 {
        s
    } else {
        submit_all(s, flow, tasks.drop_last(), overloaded).after_submit(
            flow,
            tasks.last(),
            overloaded,
        )
    }
}

/// The interval counters count accepted submissions: after the counters are
/// cleared, submitting the tasks of `tasks` as class `flow` to a running
/// scheduler that accepts them leaves that class's counter at their number and
/// the other class's at zero, and appends them, in order, to the class queue.
pub proof fn lemma_arrivals_count_accepted<T>(
    s: SchedulerView<T>,
    flow: FlowType,
    tasks: Seq<T>,
    overloaded: bool,
)
    requires
        !s.is_shutdown,
        s.submit_outcome(flow, overloaded) is Ok,
    ensures
        ({
            let r = submit_all(s.after_interval_reset(), flow, tasks, overloaded);
            &&& r.arrivals(flow) == tasks.len()
            &&& r.arrivals(crate::state::other_class(flow)) == 0
            &&& r.queue(flow) == s.queue(flow) + tasks
            &&& r.queue(crate::state::other_class(flow)) == s.queue(crate::state::other_class(flow))
            &&& !r.is_shutdown
        }),
    decreases tasks.len(),
{
    let s0 = s.after_interval_reset();
    if tasks.len() == 0 {
        assert(s.queue(flow) + tasks =~= s.queue(flow));
    } else {
        lemma_arrivals_count_accepted(s, flow, tasks.drop_last(), overloaded);
        let p = submit_all(s0, flow, tasks.drop_last(), overloaded);
        assert(p.submit_outcome(flow, overloaded) is Ok);
        assert(s.queue(flow) + tasks =~= (s.queue(flow) + tasks.drop_last()).push(tasks.last()));
    }
}

/// Shortest job first: a task with a strictly shorter expected duration is
/// served before a longer one whatever their identifiers; on equal durations
/// the lower identifier is served first; two tasks carry the same key exactly
/// when both duration and identifier agree; and the heap order ranks the task
/// served first as the greater.
pub proof fn lemma_shortest_job_first<T>(a: SjfTask<T>, b: SjfTask<T>)
    ensures
        a.expected_duration < b.expected_duration ==> a.precedes(b) && !b.precedes(a),
        a.expected_duration == b.expected_duration ==> (a.precedes(b) == (a.task_id
            < b.task_id)),
        a.same_key(b) == (a.expected_duration == b.expected_duration && a.task_id == b.task_id),
        a.expected_duration < b.expected_duration ==> a.heap_order(b) == Ordering::Greater
            && b.heap_order(a) == Ordering::Less,
        a.expected_duration == b.expected_duration && a.task_id < b.task_id ==> a.heap_order(b)
            == Ordering::Greater,
        a.expected_duration == b.expected_duration && a.task_id == b.task_id ==> a.heap_order(b)
            == Ordering::Equal,
        a.expected_duration == b.expected_duration && a.task_id > b.task_id ==> a.heap_order(b)
            == Ordering::Less,
        a.expected_duration > b.expected_duration ==> a.heap_order(b) == Ordering::Less,
{
}

/// The task the queue serves next has the shortest expected duration of all
/// waiting tasks, the lowest identifier among those of that duration, and no
/// earlier waiting task carries the same duration and identifier.
pub proof fn lemma_next_is_shortest<T>(s: Seq<SjfTask<T>>, i: int)
    requires
        is_next_index(s, i),
    ensures
        0 <= i < s.len(),
        forall|j: int| 0 <= j < s.len() ==> s[i].expected_duration <= (#[trigger] s[j]).expected_duration,
        forall|j: int|
            0 <= j < s.len() && (#[trigger] s[j]).expected_duration == s[i].expected_duration
                ==> s[i].task_id <= s[j].task_id,
        forall|j: int|
            0 <= j < i ==> !((#[trigger] s[j]).expected_duration == s[i].expected_duration
                && s[j].task_id == s[i].task_id),
{
    assert forall|j: int| 0 <= j < s.len() implies s[i].expected_duration <= (
    #[trigger] s[j]).expected_duration by {
        assert(!s[j].precedes(s[i]));
    }
    assert forall|j: int|
        0 <= j < s.len() && (#[trigger] s[j]).expected_duration == s[i].expected_duration
            implies s[i].task_id <= s[j].task_id by {
        assert(!s[j].precedes(s[i]));
    }
    assert forall|j: int| 0 <= j < i implies !((#[trigger] s[j]).expected_duration
        == s[i].expected_duration && s[j].task_id == s[i].task_id) by {
        assert(!s[j].same_key(s[i]));
    }
}

/// The shortest-job-first service order is a strict total order on keys:
/// irreflexive, transitive, and any two tasks with different keys are
/// ordered one way or the other.
pub proof fn lemma_service_order_strict_total<T>(a: SjfTask<T>, b: SjfTask<T>, c: SjfTask<T>)
    ensures
        !a.precedes(a),
        a.precedes(b) && b.precedes(c) ==> a.precedes(c),
        !(a.precedes(b) && b.precedes(a)),
        a.precedes(b) || b.precedes(a) || a.same_key(b),
        a.same_key(b) ==> !a.precedes(b),
{
}

/// The heap order is antisymmetric and agrees with equality of keys: `a` is
/// greater than `b` exactly when `b` is less than `a`, and they are equal in
/// the order exactly when they carry the same key.
pub proof fn lemma_heap_order_consistent<T>(a: SjfTask<T>, b: SjfTask<T>)
    ensures
        (a.heap_order(b) == Ordering::Greater) == (b.heap_order(a) == Ordering::Less),
        (a.heap_order(b) == Ordering::Equal) == a.same_key(b),
        (a.heap_order(b) == Ordering::Equal) == (b.heap_order(a) == Ordering::Equal),
{
}

/// Tasks leave the shortest-job-first queue in service order: the task
/// removed by a second pop is never served before the one removed by the
/// first, and of two tasks with the same key the one that waited longer
/// leaves first.
pub proof fn lemma_pops_in_service_order<T>(s: Seq<SjfTask<T>>, i: int, j: int)
    requires
        is_next_index(s, i),
        is_next_index(s.remove(i), j),
    ensures
        !s.remove(i)[j].precedes(s[i]),
        s.remove(i)[j].same_key(s[i]) ==> j >= i,
{
    let r = s.remove(i);
    if j < i {
        assert(r[j] == s[j]);
    } else {
        assert(r[j] == s[j + 1]);
    }
}

} // verus!
