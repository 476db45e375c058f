use vstd::prelude::*;
use crate::sjf::SjfTask;

verus! {

/// Whether no task of `s` is served before `t`.
pub open spec fn is_first_served<T>(s: Seq<SjfTask<T>>, t: SjfTask<T>) -> bool {
    forall|j: int| 0 <= j < s.len() ==> !(#[trigger] s[j]).precedes(t)
}

/// Whether `i` is the position that the queue serves next in `s`: no task of
/// `s` is served before the task at `i`, and no earlier position holds a task
/// with the same key.
pub open spec fn is_next_index<T>(s: Seq<SjfTask<T>>, i: int) -> bool {
    &&& 0 <= i < s.len()
    &&& is_first_served(s, s[i])
    &&& forall|j: int| 0 <= j < i ==> !(#[trigger] s[j]).same_key(s[i])
}

/// The waiting tasks of the shortest-job-first baseline. The task served next
/// is the one with the shortest expected duration, and among those the one
/// with the lowest identifier; among tasks with equal keys, the one that
/// waited longest.
pub struct SjfQueue<T> {
    tasks: Vec<SjfTask<T>>,
}

impl<T> View for SjfQueue<T> {
    type V = Seq<SjfTask<T>>;

    closed spec fn view(&self) -> Seq<SjfTask<T>> {
        self.tasks@
    }
}

impl<T> SjfQueue<T> {
    /// An empty queue.
    pub fn new() -> (q: Self)
        ensures
            q@ == Seq::<SjfTask<T>>::empty(),
    {
        SjfQueue { tasks: Vec::new() }
    }

    /// The number of waiting tasks.
    pub fn len(&self) -> (n: usize)
        ensures
            n == self@.len(),
    {
        self.tasks.len()
    }

    /// Whether no task waits.
    pub fn is_empty(&self) -> (b: bool)
        ensures
            b <==> self@.len() == 0,
    {
        self.tasks.len() == 0
    }

    /// Adds a waiting task.
    pub fn push(&mut self, task: SjfTask<T>)
        ensures
            final(self)@ == old(self)@.push(task),
    {
        self.tasks.push(task);
    }

    /// Removes and returns the task served next, or `None` when no task waits.
    pub fn pop(&mut self) -> (r: Option<SjfTask<T>>)
        ensures
            r is None <==> old(self)@.len() == 0,
            r is None ==> final(self)@ == old(self)@,
            r matches Some(t) ==> exists|i: int|
                is_next_index(old(self)@, i) && old(self)@[i] == t && final(self)@ == old(
                    self,
                )@.remove(i),
    {
        let n = self.tasks.len();
        if n == 0 {
            return None;
        }
        let mut best: usize = 0;
        let mut k: usize = 1;
        while k < n
            invariant
                n == self.tasks@.len(),
                self.tasks@ == old(self)@,
                0 <= best < k <= n,
                forall|j: int| 0 <= j < k ==> !(#[trigger] self.tasks@[j]).precedes(
                    self.tasks@[best as int],
                ),
                forall|j: int| 0 <= j < best ==> !(#[trigger] self.tasks@[j]).same_key(
                    self.tasks@[best as int],
                ),
            decreases n - k,
        {
            if self.tasks[k].runs_before(&self.tasks[best]) {
                best = k;
            }
            k = k + 1;
        }
        let t = self.tasks.remove(best);
        proof {
            assert(is_next_index(old(self)@, best as int));
        }
        Some(t)
    }
}

/// What a worker of the shortest-job-first baseline does after looking at
/// the queue.
pub enum SjfWorkerStep<T> {
    /// The task served next, for the worker to work on.
    Run(SjfTask<T>),
    /// No task waits: wait for a submission.
    Wait,
}

impl<T> SjfQueue<T> {
    /// A worker's next step: take the task served next, or wait when no task
    /// waits.
    pub fn next_step(&mut self) -> (step: SjfWorkerStep<T>)
        ensures
            step is Wait <==> old(self)@.len() == 0,
            step is Wait ==> final(self)@ == old(self)@,
            step matches SjfWorkerStep::Run(t) ==> exists|i: int|
                is_next_index(old(self)@, i) && old(self)@[i] == t && final(self)@ == old(
                    self,
                )@.remove(i),
    {
        match self.pop() {
            Some(t) => SjfWorkerStep::Run(t),
            None => SjfWorkerStep::Wait,
        }
    }
}

/// Whether a worker leaves after finishing a task, given how many tasks had
/// finished before it (`processed_before`): it leaves once its task is the
/// `total_tasks`-th to finish, or a later one.
pub fn done_after_task(processed_before: usize, total_tasks: usize) -> (done: bool)
    requires
        processed_before < usize::MAX,
    ensures
        done == (processed_before + 1 >= total_tasks),
{
    processed_before + 1 >= total_tasks
}

/// Whether a waiting worker leaves once woken, given how many tasks have
/// finished: it leaves once all `total_tasks` have.
pub fn done_after_wake(processed: usize, total_tasks: usize) -> (done: bool)
    ensures
        done == (processed >= total_tasks),
{
    processed >= total_tasks
}

} // verus!
