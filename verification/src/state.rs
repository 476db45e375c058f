use vstd::prelude::*;
use std::collections::VecDeque;
use vstd::multiset::Multiset;
use crate::types::{FlowType, SubmitError, WorkerStep};

verus! {

/// The mathematical model of a scheduler's state.
///
/// `workers` is the number of worker tasks the scheduler was built with and
/// `exited_workers` how many of them have left their loop. Every accepted
/// submission wakes one worker, and shutting down wakes every worker once more;
/// `pending_wakeups` counts the wake-ups issued and not yet taken by a worker.
pub struct SchedulerView<T> {
    pub mouse_queue: Seq<T>,
    pub elephant_queue: Seq<T>,
    pub interval_mouse_arrivals: nat,
    pub interval_elephant_arrivals: nat,
    pub interval_tasks_completed: nat,
    pub is_shutdown: bool,
    pub workers: nat,
    pub exited_workers: nat,
}

/// The class other than `f`.
pub open spec fn other_class(f: FlowType) -> FlowType {
    match f {
        FlowType::Mouse => FlowType::Elephant,
        FlowType::Elephant => FlowType::Mouse,
    }
}

/// The class a worker serves first: elephants under light load (better
/// throughput), mice otherwise (strict priority, protecting mouse latency).
pub open spec fn preferred_class(light_load: bool) -> FlowType {
    if light_load {
        FlowType::Elephant
    } else {
        FlowType::Mouse
    }
}

impl<T> SchedulerView<T> {
    /// A fresh scheduler with `workers` workers: empty queues, zero counters.
    pub open spec fn initial(workers: nat) -> Self {
        SchedulerView {
            mouse_queue: Seq::empty(),
            elephant_queue: Seq::empty(),
            interval_mouse_arrivals: 0,
            interval_elephant_arrivals: 0,
            interval_tasks_completed: 0,
            is_shutdown: false,
            workers,
            exited_workers: 0,
        }
    }

    /// The queue of class `f`.
    pub open spec fn queue(self, f: FlowType) -> Seq<T> {
        match f {
            FlowType::Mouse => self.mouse_queue,
            FlowType::Elephant => self.elephant_queue,
        }
    }

    /// The arrival counter of class `f` for the current interval.
    pub open spec fn arrivals(self, f: FlowType) -> nat {
        match f {
            FlowType::Mouse => self.interval_mouse_arrivals,
            FlowType::Elephant => self.interval_elephant_arrivals,
        }
    }

    /// Number of queued tasks, both classes together.
    pub open spec fn queued(self) -> nat {
        self.mouse_queue.len() + self.elephant_queue.len()
    }

    /// Every queued task, both classes together.
    pub open spec fn all_queued(self) -> Multiset<T> {
        self.mouse_queue.to_multiset().add(self.elephant_queue.to_multiset())
    }

    /// Workers that have not left their loop.
    pub open spec fn live_workers(self) -> nat {
        if self.exited_workers <= self.workers {
            (self.workers - self.exited_workers) as nat
        } else {
            0
        }
    }

    /// Wake-ups issued to workers and not yet taken: one per queued task, and
    /// after shutdown one more per live worker.
    pub open spec fn pending_wakeups(self) -> nat {
        if self.is_shutdown {
            self.queued() + self.live_workers()
        } else {
            self.queued()
        }
    }

    /// The invariant that every reachable state satisfies.
    pub open spec fn inv(self) -> bool {
        &&& self.exited_workers <= self.workers
        &&& !self.is_shutdown ==> self.exited_workers == 0
        &&& (self.is_shutdown && self.exited_workers > 0) ==> self.queued() == 0
    }

    /// What a submission of class `flow` is answered, given whether the
    /// system is overloaded (its load `rho` is at least 1).
    pub open spec fn submit_outcome(self, flow: FlowType, overloaded: bool) -> Result<(), SubmitError> {
        if self.is_shutdown {
            Err(SubmitError::ShutDown)
        } else if overloaded && flow == FlowType::Elephant {
            Err(SubmitError::Overloaded)
        } else {
            Ok(())
        }
    }

    /// The state after `task` of class `flow` is accepted: it joins the back
    /// of its class queue and the class's arrival counter goes up by one.
    pub open spec fn with_accepted(self, flow: FlowType, task: T) -> Self {
        match flow {
            FlowType::Mouse => SchedulerView {
                mouse_queue: self.mouse_queue.push(task),
                interval_mouse_arrivals: self.interval_mouse_arrivals + 1,
                ..self
            },
            FlowType::Elephant => SchedulerView {
                elephant_queue: self.elephant_queue.push(task),
                interval_elephant_arrivals: self.interval_elephant_arrivals + 1,
                ..self
            },
        }
    }

    /// The state after a submission: changed only when it is accepted.
    pub open spec fn after_submit(self, flow: FlowType, task: T, overloaded: bool) -> Self {
        if self.submit_outcome(flow, overloaded) is Ok {
            self.with_accepted(flow, task)
        } else {
            self
        }
    }

    /// Whether a worker woken now leaves its loop.
    pub open spec fn worker_exits(self) -> bool {
        self.is_shutdown && self.queued() == 0
    }

    /// The class a worker takes its next task from: the preferred class if its
    /// queue holds a task, the other class otherwise.
    pub open spec fn dispatch_class(self, light_load: bool) -> FlowType {
        let f = preferred_class(light_load);
        if self.queue(f).len() > 0 {
            f
        } else {
            other_class(f)
        }
    }

    /// The state with the front task of class `f` removed.
    pub open spec fn without_front(self, f: FlowType) -> Self {
        match f {
            FlowType::Mouse => SchedulerView { mouse_queue: self.mouse_queue.drop_first(), ..self },
            FlowType::Elephant => SchedulerView {
                elephant_queue: self.elephant_queue.drop_first(),
                ..self
            },
        }
    }

    /// What a woken worker does.
    pub open spec fn dispatch_step(self, light_load: bool) -> WorkerStep<T> {
        if self.worker_exits() {
            WorkerStep::Exit
        } else {
            let f = self.dispatch_class(light_load);
            WorkerStep::Run(f, self.queue(f)[0])
        }
    }

    /// The state after a woken worker has made its choice.
    pub open spec fn after_dispatch(self, light_load: bool) -> Self {
        if self.worker_exits() {
            SchedulerView { exited_workers: self.exited_workers + 1, ..self }
        } else {
            self.without_front(self.dispatch_class(light_load))
        }
    }

    /// The state after shutdown has begun.
    pub open spec fn after_shutdown(self) -> Self {
        SchedulerView { is_shutdown: true, ..self }
    }

    /// The state after a worker reports a finished task.
    pub open spec fn after_completion(self) -> Self {
        SchedulerView { interval_tasks_completed: self.interval_tasks_completed + 1, ..self }
    }

    /// The state after the interval counters are read and cleared.
    pub open spec fn after_interval_reset(self) -> Self {
        SchedulerView {
            interval_mouse_arrivals: 0,
            interval_elephant_arrivals: 0,
            interval_tasks_completed: 0,
            ..self
        }
    }
}

/// The class other than `f`.
pub fn other_flow(f: FlowType) -> (g: FlowType)
    ensures
        g == other_class(f),
{
    match f {
        FlowType::Mouse => FlowType::Elephant,
        FlowType::Elephant => FlowType::Mouse,
    }
}

/// The counters of one metrics interval.
#[derive(Debug, Clone, Copy, PartialEq, Eq, Structural)]
pub struct IntervalCounts {
    pub mouse_arrivals: usize,
    pub elephant_arrivals: usize,
    pub tasks_completed: usize,
}

/// The scheduler's shared state: the two class queues, the counters of the
/// current metrics interval, the shutdown flag and the worker bookkeeping.
pub struct SchedulerState<T> {
    mouse_queue: VecDeque<T>,
    elephant_queue: VecDeque<T>,
    interval_mouse_arrivals: usize,
    interval_elephant_arrivals: usize,
    interval_tasks_completed: usize,
    is_shutdown: bool,
    workers: usize,
    exited_workers: usize,
}

impl<T> View for SchedulerState<T> {
    type V = SchedulerView<T>;

    closed spec fn view(&self) -> SchedulerView<T> {
        SchedulerView {
            mouse_queue: self.mouse_queue@,
            elephant_queue: self.elephant_queue@,
            interval_mouse_arrivals: self.interval_mouse_arrivals as nat,
            interval_elephant_arrivals: self.interval_elephant_arrivals as nat,
            interval_tasks_completed: self.interval_tasks_completed as nat,
            is_shutdown: self.is_shutdown,
            workers: self.workers as nat,
            exited_workers: self.exited_workers as nat,
        }
    }
}

impl<T> SchedulerState<T> {
    /// Every scheduler state satisfies the model's invariant.
    #[verifier::type_invariant]
    spec fn well_formed(self) -> bool {
        self@.inv()
    }

    /// Appends `task` to the queue of class `flow`.
    fn push_back_to(&mut self, flow: FlowType, task: T)
        requires
            !old(self)@.is_shutdown,
        ensures
            final(self)@ == (match flow {
                FlowType::Mouse => SchedulerView {
                    mouse_queue: old(self)@.mouse_queue.push(task),
                    ..old(self)@
                },
                FlowType::Elephant => SchedulerView {
                    elephant_queue: old(self)@.elephant_queue.push(task),
                    ..old(self)@
                },
            }),
    {
        proof {
            use_type_invariant(&*self);
        }
        let mut q = VecDeque::new();
        match flow {
            FlowType::Mouse => std::mem::swap(&mut q, &mut self.mouse_queue),
            FlowType::Elephant => std::mem::swap(&mut q, &mut self.elephant_queue),
        }
        q.push_back(task);
        match flow {
            FlowType::Mouse => std::mem::swap(&mut q, &mut self.mouse_queue),
            FlowType::Elephant => std::mem::swap(&mut q, &mut self.elephant_queue),
        }
    }

    /// Removes and returns the front task of class `flow`, if there is one.
    fn pop_front_of(&mut self, flow: FlowType) -> (r: Option<T>)
        ensures
            match r {
                Some(t) => {
                    &&& old(self)@.queue(flow).len() > 0
                    &&& t == old(self)@.queue(flow)[0]
                    &&& final(self)@ == old(self)@.without_front(flow)
                },
                None => old(self)@.queue(flow).len() == 0 && final(self)@ == old(self)@,
            },
    {
        proof {
            use_type_invariant(&*self);
        }
        let mut q = VecDeque::new();
        match flow {
            FlowType::Mouse => std::mem::swap(&mut q, &mut self.mouse_queue),
            FlowType::Elephant => std::mem::swap(&mut q, &mut self.elephant_queue),
        }
        let r = q.pop_front();
        proof {
            if r is Some {
                assert(q@ =~= old(self)@.queue(flow).drop_first());
            }
        }
        match flow {
            FlowType::Mouse => std::mem::swap(&mut q, &mut self.mouse_queue),
            FlowType::Elephant => std::mem::swap(&mut q, &mut self.elephant_queue),
        }
        r
    }

    /// Creates the state of a scheduler with `workers` workers.
    pub fn new(workers: usize) -> (s: Self)
        ensures
            s@ == SchedulerView::<T>::initial(workers as nat),
            s@.inv(),
    {
        SchedulerState {
            mouse_queue: VecDeque::new(),
            elephant_queue: VecDeque::new(),
            interval_mouse_arrivals: 0,
            interval_elephant_arrivals: 0,
            interval_tasks_completed: 0,
            is_shutdown: false,
            workers,
            exited_workers: 0,
        }
    }

    /// Whether shutdown has begun.
    pub fn is_shutdown(&self) -> (b: bool)
        ensures
            b == self@.is_shutdown,
    {
        self.is_shutdown
    }

    /// The number of workers the scheduler was built with.
    pub fn workers(&self) -> (n: usize)
        ensures
            n == self@.workers,
    {
        self.workers
    }

    /// The arrival counter of class `flow` for the current interval.
    pub fn arrivals(&self, flow: FlowType) -> (n: usize)
        ensures
            n == self@.arrivals(flow),
    {
        match flow {
            FlowType::Mouse => self.interval_mouse_arrivals,
            FlowType::Elephant => self.interval_elephant_arrivals,
        }
    }

    /// The number of tasks finished in the current interval.
    pub fn tasks_completed(&self) -> (n: usize)
        ensures
            n == self@.interval_tasks_completed,
    {
        self.interval_tasks_completed
    }

    /// Returns `(mouse_queue_len, elephant_queue_len)`.
    pub fn queue_lengths(&self) -> (r: (usize, usize))
        ensures
            r.0 == self@.mouse_queue.len(),
            r.1 == self@.elephant_queue.len(),
    {
        (self.mouse_queue.len(), self.elephant_queue.len())
    }

    /// Whether a submission of class `flow` would be accepted, given whether
    /// the system is overloaded.
    pub fn admits(&self, flow: FlowType, overloaded: bool) -> (b: bool)
        ensures
            b <==> self@.submit_outcome(flow, overloaded) is Ok,
    {
        !self.is_shutdown && !(overloaded && flow.is_elephant())
    }

    /// Whether a wake-up is pending, that is, whether a worker may be woken.
    pub fn has_pending_wakeup(&self) -> (b: bool)
        ensures
            b <==> self@.pending_wakeups() > 0,
    {
        self.mouse_queue.len() > 0 || self.elephant_queue.len() > 0 || (self.is_shutdown
            && self.exited_workers < self.workers)
    }

    /// Submits `task` with flow classification `flow_type`.
    ///
    /// Refused with `ShutDown` once shutdown has begun, and with `Overloaded`
    /// when the system is overloaded and the task is an elephant flow
    /// (admission control); a mouse flow is never refused while the scheduler
    /// runs. An accepted task joins the back of its class queue, its class's
    /// arrival counter goes up by one, and one worker is to be woken. A refused
    /// submission changes nothing.
    pub fn submit(&mut self, flow_type: FlowType, task: T, overloaded: bool) -> (r: Result<
        (),
        SubmitError,
    >)
        requires
            old(self)@.submit_outcome(flow_type, overloaded) is Ok ==> old(self)@.arrivals(
                flow_type,
            ) < usize::MAX,
        ensures
            r == old(self)@.submit_outcome(flow_type, overloaded),
            final(self)@ == old(self)@.after_submit(flow_type, task, overloaded),
            final(self)@.inv(),
    {
        proof {
            use_type_invariant(&*self);
        }
        if self.is_shutdown {
            return Err(SubmitError::ShutDown);
        }
        if overloaded && flow_type.is_elephant() {
            return Err(SubmitError::Overloaded);
        }
        match flow_type {
            FlowType::Mouse => {
                self.interval_mouse_arrivals = self.interval_mouse_arrivals + 1;
            },
            FlowType::Elephant => {
                self.interval_elephant_arrivals = self.interval_elephant_arrivals + 1;
            },
        }
        self.push_back_to(flow_type, task);
        Ok(())
    }

    /// What a worker does once woken: leave its loop when shutdown has begun
    /// and both queues are empty, else take the front task of a queue. Under
    /// light load elephant tasks are served first, otherwise mouse tasks are
    /// (strict priority); the other queue is served only when the first one is
    /// empty. `light_load` says whether the load is below the scheduler's
    /// light-load threshold.
    pub fn dispatch(&mut self, light_load: bool) -> (step: WorkerStep<T>)
        requires
            old(self)@.pending_wakeups() > 0,
        ensures
            step == old(self)@.dispatch_step(light_load),
            final(self)@ == old(self)@.after_dispatch(light_load),
            final(self)@.inv(),
    {
        proof {
            use_type_invariant(&*self);
        }
        if self.is_shutdown && self.mouse_queue.len() == 0 && self.elephant_queue.len() == 0 {
            self.exited_workers = self.exited_workers + 1;
            return WorkerStep::Exit;
        }
        let first = if light_load {
            FlowType::Elephant
        } else {
            FlowType::Mouse
        };
        match self.pop_front_of(first) {
            Some(t) => WorkerStep::Run(first, t),
            None => {
                let second = other_flow(first);
                match self.pop_front_of(second) {
                    Some(t) => WorkerStep::Run(second, t),
                    None => {
                        proof {
                            assert(false);
                        }
                        WorkerStep::Exit
                    },
                }
            },
        }
    }

    /// Begins shutdown: no submission is accepted from now on, and every
    /// worker is to be woken once more. Returns how many wake-ups to issue.
    pub fn shutdown(&mut self) -> (wakeups: usize)
        requires
            !old(self)@.is_shutdown,
        ensures
            wakeups == old(self)@.workers,
            final(self)@ == old(self)@.after_shutdown(),
            final(self)@.inv(),
    {
        proof {
            use_type_invariant(&*self);
        }
        self.is_shutdown = true;
        self.workers
    }

    /// Records that a worker has finished a task.
    pub fn record_completion(&mut self)
        requires
            old(self)@.interval_tasks_completed < usize::MAX,
        ensures
            final(self)@ == old(self)@.after_completion(),
            final(self)@.inv(),
    {
        proof {
            use_type_invariant(&*self);
        }
        self.interval_tasks_completed = self.interval_tasks_completed + 1;
    }

    /// Reads the counters of the current interval and clears them.
    pub fn take_interval_counts(&mut self) -> (c: IntervalCounts)
        ensures
            c.mouse_arrivals == old(self)@.interval_mouse_arrivals,
            c.elephant_arrivals == old(self)@.interval_elephant_arrivals,
            c.tasks_completed == old(self)@.interval_tasks_completed,
            final(self)@ == old(self)@.after_interval_reset(),
            final(self)@.inv(),
    {
        proof {
            use_type_invariant(&*self);
        }
        let c = IntervalCounts {
            mouse_arrivals: self.interval_mouse_arrivals,
            elephant_arrivals: self.interval_elephant_arrivals,
            tasks_completed: self.interval_tasks_completed,
        };
        self.interval_mouse_arrivals = 0;
        self.interval_elephant_arrivals = 0;
        self.interval_tasks_completed = 0;
        c
    }
}

} // verus!
