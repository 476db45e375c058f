use vstd::prelude::*;
use crate::types::FlowType;

verus! {

/// The class of the `i`-th task of a benchmark scenario: every
/// `mouse_ratio_mod`-th task (starting with the first) is an elephant flow,
/// the others are mouse flows.
pub open spec fn scenario_flow(i: nat, mouse_ratio_mod: nat) -> FlowType {
    if i % mouse_ratio_mod != 0 {
        FlowType::Mouse
    } else {
        FlowType::Elephant
    }
}

/// How long a task of class `flow` works, in milliseconds.
pub open spec fn work_millis(flow: FlowType) -> u64 {
    match flow {
        FlowType::Mouse => 5,
        FlowType::Elephant => 50,
    }
}

/// The pause between two submissions, in milliseconds, once `elapsed_nanos`
/// nanoseconds of the scenario have passed: the arrival rate rises after three
/// seconds and again after six.
pub open spec fn pacing_millis(elapsed_nanos: u128) -> u64 {
    if elapsed_nanos < 3_000_000_000 {
        10
    } else if elapsed_nanos < 6_000_000_000 {
        3
    } else {
        1
    }
}

/// The name of a class in a task record.
pub open spec fn flow_name(flow: FlowType) -> &'static str {
    match flow {
        FlowType::Mouse => "Mouse",
        FlowType::Elephant => "Elephant",
    }
}

/// The class of the `i`-th task of a scenario.
pub fn flow_for_task(i: usize, mouse_ratio_mod: usize) -> (f: FlowType)
    requires
        mouse_ratio_mod > 0,
    ensures
        f == scenario_flow(i as nat, mouse_ratio_mod as nat),
{
    if i % mouse_ratio_mod != 0 {
        FlowType::Mouse
    } else {
        FlowType::Elephant
    }
}

/// How long a task of class `flow` works, in milliseconds; the
/// shortest-job-first baseline takes it as the task's expected duration.
pub fn work_duration_ms(flow: FlowType) -> (ms: u64)
    ensures
        ms == work_millis(flow),
{
    match flow {
        FlowType::Mouse => 5,
        FlowType::Elephant => 50,
    }
}

/// The pause before the next submission of a scenario, in milliseconds.
pub fn pacing_delay_ms(elapsed_nanos: u128) -> (ms: u64)
    ensures
        ms == pacing_millis(elapsed_nanos),
{
    if elapsed_nanos < 3_000_000_000 {
        10
    } else if elapsed_nanos < 6_000_000_000 {
        3
    } else {
        1
    }
}

/// The name of a class in a task record.
pub fn flow_label(flow: FlowType) -> (s: &'static str)
    ensures
        s == flow_name(flow),
{
    match flow {
        FlowType::Mouse => "Mouse",
        FlowType::Elephant => "Elephant",
    }
}

/// One row of the benchmark's task trace.
pub struct TaskRecord {
    pub scenario: String,
    pub task_id: usize,
    pub flow_type: String,
    pub arrival_time_ms: u128,
    pub wait_time_ms: u128,
    pub execution_time_ms: u128,
    pub dropped: bool,
}

impl TaskRecord {
    /// The record of a task that ran: it waited `wait_time_ms` and worked
    /// `execution_time_ms`.
    pub fn executed(
        scenario: String,
        task_id: usize,
        flow: FlowType,
        arrival_time_ms: u128,
        wait_time_ms: u128,
        execution_time_ms: u128,
    ) -> (r: TaskRecord)
        ensures
            r.scenario@ == scenario@,
            r.task_id == task_id,
            r.flow_type@ == flow_name(flow)@,
            r.arrival_time_ms == arrival_time_ms,
            r.wait_time_ms == wait_time_ms,
            r.execution_time_ms == execution_time_ms,
            !r.dropped,
    {
        TaskRecord {
            scenario,
            task_id,
            flow_type: flow_label(flow).to_owned(),
            arrival_time_ms,
            wait_time_ms,
            execution_time_ms,
            dropped: false,
        }
    }

    /// The record of a task the scheduler refused: it neither waited nor ran.
    pub fn dropped(scenario: String, task_id: usize, flow: FlowType, arrival_time_ms: u128) -> (r:
        TaskRecord)
        ensures
            r.scenario@ == scenario@,
            r.task_id == task_id,
            r.flow_type@ == flow_name(flow)@,
            r.arrival_time_ms == arrival_time_ms,
            r.wait_time_ms == 0,
            r.execution_time_ms == 0,
            r.dropped,
    {
        TaskRecord {
            scenario,
            task_id,
            flow_type: flow_label(flow).to_owned(),
            arrival_time_ms,
            wait_time_ms: 0,
            execution_time_ms: 0,
            dropped: true,
        }
    }
}

} // verus!
