use vstd::prelude::*;

verus! {

/// Categorizes the type of workload being submitted.
#[derive(Debug, Clone, Copy, PartialEq, Eq, Structural)]
pub enum FlowType {
    /// High-frequency, latency-sensitive tasks (e.g., control updates).
    Mouse,
    /// Low-frequency, throughput-oriented heavy tasks (e.g., database persistence).
    Elephant,
}

impl FlowType {
    /// Whether this is an elephant flow.
    pub fn is_elephant(&self) -> (b: bool)
        ensures
            b <==> *self == FlowType::Elephant,
    {
        match self {
            FlowType::Mouse => false,
            FlowType::Elephant => true,
        }
    }
}

/// Why a submission was refused.
#[derive(Debug, Clone, Copy, PartialEq, Eq, Structural)]
pub enum SubmitError {
    /// The scheduler is shutting down.
    ShutDown,
    /// Overload admission control rejected an elephant flow.
    Overloaded,
}

impl SubmitError {
    /// The message the scheduler answers a refused submission with.
    pub open spec fn text(self) -> &'static str {
        match self {
            SubmitError::ShutDown => "Scheduler is shut down",
            SubmitError::Overloaded => "Overload: Elephant flow rejected",
        }
    }

    /// The message the scheduler answers a refused submission with.
    pub fn message(&self) -> (m: &'static str)
        ensures
            m == self.text(),
    {
        match self {
            SubmitError::ShutDown => "Scheduler is shut down",
            SubmitError::Overloaded => "Overload: Elephant flow rejected",
        }
    }
}

/// What a woken worker does next.
pub enum WorkerStep<T> {
    /// Start the task; its class is given first.
    Run(FlowType, T),
    /// Leave the worker loop: shutdown has begun and no task is left.
    Exit,
}

} // verus!
