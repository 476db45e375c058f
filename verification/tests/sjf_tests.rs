use flow_prioritize::sjf_queue::{done_after_task, done_after_wake};
use flow_prioritize::SjfWorkerStep;
use flow_prioritize::workload::{flow_for_task, flow_label, pacing_delay_ms, work_duration_ms, TaskRecord};
use flow_prioritize::{FlowType, SjfQueue, SjfTask};
use std::cmp::Ordering;

fn task(expected_duration: u64, task_id: usize) -> SjfTask<usize> {
    SjfTask { expected_duration, task_id, task: task_id }
}

#[test]
fn sjf_cmp_prefers_shorter_then_lower_id() {
    assert_eq!(task(5, 3).cmp(&task(50, 1)), Ordering::Greater);
    assert_eq!(task(50, 1).cmp(&task(5, 3)), Ordering::Less);
    assert_eq!(task(5, 1).cmp(&task(5, 2)), Ordering::Greater);
    assert_eq!(task(5, 2).cmp(&task(5, 1)), Ordering::Less);
    assert_eq!(task(5, 2).cmp(&task(5, 2)), Ordering::Equal);
    assert_eq!(task(5, 2).partial_cmp(&task(50, 0)), Some(Ordering::Greater));
    assert!(task(5, 2).eq(&task(5, 2)));
    assert!(!task(5, 2).eq(&task(5, 3)));
    assert!(task(5, 2).runs_before(&task(50, 0)));
    assert!(!task(50, 0).runs_before(&task(5, 2)));
}

#[test]
fn sjf_queue_pops_in_service_order() {
    let mut q: SjfQueue<usize> = SjfQueue::new();
    assert!(q.is_empty());
    assert!(q.pop().is_none());
    q.push(task(50, 0));
    q.push(task(5, 1));
    q.push(task(5, 2));
    q.push(task(50, 3));
    q.push(task(5, 4));
    assert_eq!(q.len(), 5);
    let mut ids = Vec::new();
    while let Some(t) = q.pop() {
        ids.push(t.task_id);
    }
    assert_eq!(ids, vec![1, 2, 4, 0, 3]);
    assert!(q.is_empty());
}

#[test]
fn sjf_queue_equal_keys_leave_in_arrival_order() {
    let mut q: SjfQueue<&str> = SjfQueue::new();
    q.push(SjfTask { expected_duration: 5, task_id: 7, task: "first" });
    q.push(SjfTask { expected_duration: 5, task_id: 7, task: "second" });
    assert_eq!(q.pop().unwrap().task, "first");
    assert_eq!(q.pop().unwrap().task, "second");
}

#[test]
fn scenario_flow_mix() {
    // Scenario 1: one elephant in ten tasks
    let elephants = (0..2000).filter(|&i| flow_for_task(i, 10) == FlowType::Elephant).count();
    assert_eq!(elephants, 200);
    assert_eq!(flow_for_task(0, 10), FlowType::Elephant);
    assert_eq!(flow_for_task(1, 10), FlowType::Mouse);
    assert_eq!(flow_for_task(20, 10), FlowType::Elephant);
    // Scenario 2: half and half
    assert_eq!(flow_for_task(7, 2), FlowType::Mouse);
    assert_eq!(flow_for_task(8, 2), FlowType::Elephant);
    let elephants = (0..2000).filter(|&i| flow_for_task(i, 2) == FlowType::Elephant).count();
    assert_eq!(elephants, 1000);
}

#[test]
fn work_durations() {
    assert_eq!(work_duration_ms(FlowType::Mouse), 5);
    assert_eq!(work_duration_ms(FlowType::Elephant), 50);
}

#[test]
fn pacing_delay_steps_up_the_arrival_rate() {
    assert_eq!(pacing_delay_ms(0), 10);
    assert_eq!(pacing_delay_ms(2_999_999_999), 10);
    assert_eq!(pacing_delay_ms(3_000_000_000), 3);
    assert_eq!(pacing_delay_ms(5_999_999_999), 3);
    assert_eq!(pacing_delay_ms(6_000_000_000), 1);
    assert_eq!(pacing_delay_ms(u128::MAX), 1);
}

#[test]
fn flow_labels() {
    assert_eq!(flow_label(FlowType::Mouse), "Mouse");
    assert_eq!(flow_label(FlowType::Elephant), "Elephant");
}

#[test]
fn task_records() {
    let r = TaskRecord::executed("S_Proposed".to_string(), 4, FlowType::Elephant, 12, 3, 51);
    assert_eq!(r.scenario, "S_Proposed");
    assert_eq!(r.task_id, 4);
    assert_eq!(r.flow_type, "Elephant");
    assert_eq!((r.arrival_time_ms, r.wait_time_ms, r.execution_time_ms), (12, 3, 51));
    assert!(!r.dropped);
    let d = TaskRecord::dropped("S_Proposed".to_string(), 9, FlowType::Mouse, 40);
    assert_eq!(d.flow_type, "Mouse");
    assert_eq!((d.task_id, d.arrival_time_ms, d.wait_time_ms, d.execution_time_ms), (9, 40, 0, 0));
    assert!(d.dropped);
}

#[test]
fn sjf_worker_steps() {
    let mut q: SjfQueue<usize> = SjfQueue::new();
    assert!(matches!(q.next_step(), SjfWorkerStep::Wait));
    q.push(task(50, 0));
    q.push(task(5, 1));
    match q.next_step() {
        SjfWorkerStep::Run(t) => assert_eq!(t.task_id, 1),
        SjfWorkerStep::Wait => panic!("a task was waiting"),
    }
    assert_eq!(q.len(), 1);
    // the worker whose task is the last of 2000 to finish leaves
    assert!(!done_after_task(1997, 2000));
    assert!(done_after_task(1999, 2000));
    assert!(done_after_task(2500, 2000));
    assert!(!done_after_wake(1999, 2000));
    assert!(done_after_wake(2000, 2000));
    assert!(done_after_wake(0, 0));
}
