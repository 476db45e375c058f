use vstd::prelude::*;
use std::cmp::Ordering;

verus! {

/// A task of the shortest-job-first baseline, with the duration it is
/// expected to run for and its identifier.
pub struct SjfTask<T> {
    pub expected_duration: u64,
    pub task_id: usize,
    pub task: T,
}

/// Whether a task with key `(d1, i1)` is served before one with key
/// `(d2, i2)`: shorter expected duration first, then lower identifier.
pub open spec fn key_runs_before(d1: u64, i1: usize, d2: u64, i2: usize) -> bool {
    d1 < d2 || (d1 == d2 && i1 < i2)
}

impl<T> SjfTask<T> {
    /// Whether `self` is served before `other`.
    pub open spec fn precedes(self, other: SjfTask<T>) -> bool {
        key_runs_before(self.expected_duration, self.task_id, other.expected_duration, other.task_id)
    }

    /// Whether `self` and `other` carry the same key.
    pub open spec fn same_key(self, other: SjfTask<T>) -> bool {
        self.expected_duration == other.expected_duration && self.task_id == other.task_id
    }

    /// The order of the shortest-job-first heap: a task is greater than
    /// another when it is to be served first.
    pub open spec fn heap_order(self, other: SjfTask<T>) -> Ordering {
        if self.precedes(other) {
            Ordering::Greater
        } else if other.precedes(self) {
            Ordering::Less
        } else {
            Ordering::Equal
        }
    }

    /// Whether `self` is served before `other`.
    pub fn runs_before(&self, other: &SjfTask<T>) -> (b: bool)
        ensures
            b == self.precedes(*other),
    {
        self.expected_duration < other.expected_duration || (self.expected_duration
            == other.expected_duration && self.task_id < other.task_id)
    }

    /// Equality of tasks: same expected duration and same identifier.
    pub fn eq(&self, other: &SjfTask<T>) -> (b: bool)
        ensures
            b == self.same_key(*other),
    {
        self.expected_duration == other.expected_duration && self.task_id == other.task_id
    }

    /// The heap order, as a partial order (it is total).
    pub fn partial_cmp(&self, other: &SjfTask<T>) -> (o: Option<Ordering>)
        ensures
            o == Some(self.heap_order(*other)),
    {
        Some(self.cmp(other))
    }

    /// The heap order: the task with the shorter expected duration is
    /// greater, and on equal durations the one with the lower identifier.
    pub fn cmp(&self, other: &SjfTask<T>) -> (o: Ordering)
        ensures
            o == self.heap_order(*other),
    {
        if self.runs_before(other) {
            Ordering::Greater
        } else if other.runs_before(self) {
            Ordering::Less
        } else {
            Ordering::Equal
        }
    }
}

} // verus!
