use flow_prioritize::{FlowType, SchedulerState, SubmitError, WorkerStep};

/// Runs every queued task of `state` the way a worker pool would: each
/// accepted submission issued one wake-up, so a worker takes one step per
/// pending wake-up. Returns the tasks in the order they were started.
fn drain<T>(state: &mut SchedulerState<T>, light_load: bool) -> Vec<(FlowType, T)> {
    let mut started = Vec::new();
    while state.has_pending_wakeup() {
        match state.dispatch(light_load) {
            WorkerStep::Run(flow, task) => {
                state.record_completion();
                started.push((flow, task));
            }
            WorkerStep::Exit => {}
        }
    }
    started
}

#[test]
fn test_basic_submission_and_execution() {
    let mut state: SchedulerState<usize> = SchedulerState::new(2);
    let mut counter = 0usize;

    // Submit a mouse flow
    let res1 = state.submit(FlowType::Mouse, 1, false);
    assert!(res1.is_ok());

    // Submit an elephant flow
    let res2 = state.submit(FlowType::Elephant, 10, false);
    assert!(res2.is_ok());

    // Both should be executed
    for (_, add) in drain(&mut state, true) {
        counter += add;
    }
    assert_eq!(counter, 11);
    assert_eq!(state.tasks_completed(), 2);

    let wakeups = state.shutdown();
    assert_eq!(wakeups, 2);
}

#[test]
fn test_admission_control_on_overload() {
    let mut state: SchedulerState<u32> = SchedulerState::new(1);

    // Flood the system with tasks
    for i in 0..500u32 {
        let _ = state.submit(FlowType::Mouse, i, false);
    }
    assert_eq!(state.queue_lengths(), (500, 0));

    // The load estimate now says the system is overloaded (rho >= 1.0):
    // an Elephant flow is REJECTED
    let res_elephant = state.submit(FlowType::Elephant, 1000, true);
    assert!(res_elephant.is_err(), "Elephant flow was not rejected during overload");
    assert_eq!(res_elephant.err().unwrap().message(), "Overload: Elephant flow rejected");

    // But Mouse flows should still be accepted (protected)
    let res_mouse = state.submit(FlowType::Mouse, 1001, true);
    assert!(res_mouse.is_ok(), "Mouse flow was incorrectly rejected during overload");
    assert_eq!(state.queue_lengths(), (501, 0));
}

#[test]
fn test_graceful_shutdown() {
    let mut state: SchedulerState<u32> = SchedulerState::new(4);
    let wakeups = state.shutdown();
    assert_eq!(wakeups, 4);
    // every worker is woken once and leaves
    for _ in 0..4 {
        assert!(state.has_pending_wakeup());
        assert!(matches!(state.dispatch(false), WorkerStep::Exit));
    }
    assert!(!state.has_pending_wakeup());
}

#[test]
fn new_state_is_empty() {
    let state: SchedulerState<u8> = SchedulerState::new(3);
    assert_eq!(state.queue_lengths(), (0, 0));
    assert_eq!(state.arrivals(FlowType::Mouse), 0);
    assert_eq!(state.arrivals(FlowType::Elephant), 0);
    assert_eq!(state.tasks_completed(), 0);
    assert_eq!(state.workers(), 3);
    assert!(!state.is_shutdown());
    assert!(!state.has_pending_wakeup());
}

#[test]
fn submit_after_shutdown_is_refused_and_changes_nothing() {
    let mut state: SchedulerState<u8> = SchedulerState::new(1);
    state.submit(FlowType::Mouse, 1, false).unwrap();
    state.shutdown();
    let r = state.submit(FlowType::Mouse, 2, false);
    assert_eq!(r, Err(SubmitError::ShutDown));
    assert_eq!(r.unwrap_err().message(), "Scheduler is shut down");
    let r = state.submit(FlowType::Elephant, 3, true);
    assert_eq!(r, Err(SubmitError::ShutDown));
    assert_eq!(state.queue_lengths(), (1, 0));
    assert_eq!(state.arrivals(FlowType::Mouse), 1);
    assert_eq!(state.arrivals(FlowType::Elephant), 0);
}

#[test]
fn admits_matches_submit() {
    let mut state: SchedulerState<u8> = SchedulerState::new(1);
    assert!(state.admits(FlowType::Mouse, true));
    assert!(state.admits(FlowType::Mouse, false));
    assert!(!state.admits(FlowType::Elephant, true));
    assert!(state.admits(FlowType::Elephant, false));
    assert_eq!(state.submit(FlowType::Elephant, 1, true), Err(SubmitError::Overloaded));
    assert_eq!(state.submit(FlowType::Elephant, 1, false), Ok(()));
    state.shutdown();
    assert!(!state.admits(FlowType::Mouse, false));
}

#[test]
fn light_load_serves_elephants_first() {
    let mut state: SchedulerState<&str> = SchedulerState::new(2);
    state.submit(FlowType::Mouse, "m1", false).unwrap();
    state.submit(FlowType::Elephant, "e1", false).unwrap();
    state.submit(FlowType::Mouse, "m2", false).unwrap();
    state.submit(FlowType::Elephant, "e2", false).unwrap();
    let order: Vec<&str> = drain(&mut state, true).into_iter().map(|(_, t)| t).collect();
    assert_eq!(order, vec!["e1", "e2", "m1", "m2"]);
}

#[test]
fn heavy_load_serves_mice_first() {
    let mut state: SchedulerState<&str> = SchedulerState::new(2);
    state.submit(FlowType::Elephant, "e1", false).unwrap();
    state.submit(FlowType::Mouse, "m1", false).unwrap();
    state.submit(FlowType::Elephant, "e2", false).unwrap();
    state.submit(FlowType::Mouse, "m2", false).unwrap();
    let started = drain(&mut state, false);
    assert_eq!(
        started,
        vec![
            (FlowType::Mouse, "m1"),
            (FlowType::Mouse, "m2"),
            (FlowType::Elephant, "e1"),
            (FlowType::Elephant, "e2"),
        ]
    );
}

#[test]
fn accept_then_dispatch_round_trip() {
    let mut state: SchedulerState<u64> = SchedulerState::new(1);
    state.submit(FlowType::Elephant, 42, false).unwrap();
    match state.dispatch(false) {
        WorkerStep::Run(flow, task) => {
            assert_eq!(flow, FlowType::Elephant);
            assert_eq!(task, 42);
        }
        WorkerStep::Exit => panic!("worker left with a task queued"),
    }
    assert_eq!(state.queue_lengths(), (0, 0));
    assert_eq!(state.arrivals(FlowType::Elephant), 1);
}

#[test]
fn graceful_shutdown_drains_queues_before_exit() {
    let mut state: SchedulerState<u32> = SchedulerState::new(2);
    state.submit(FlowType::Mouse, 1, false).unwrap();
    state.submit(FlowType::Elephant, 2, false).unwrap();
    state.submit(FlowType::Mouse, 3, false).unwrap();
    assert_eq!(state.shutdown(), 2);
    let mut ran = Vec::new();
    let mut exits = 0;
    while state.has_pending_wakeup() {
        match state.dispatch(false) {
            WorkerStep::Run(_, t) => {
                assert_eq!(exits, 0, "a worker left while tasks were queued");
                ran.push(t);
            }
            WorkerStep::Exit => exits += 1,
        }
    }
    assert_eq!(ran, vec![1, 3, 2]);
    assert_eq!(exits, 2);
    assert_eq!(state.queue_lengths(), (0, 0));
}

#[test]
fn interval_counts_are_taken_and_cleared() {
    let mut state: SchedulerState<u8> = SchedulerState::new(1);
    state.submit(FlowType::Mouse, 1, false).unwrap();
    state.submit(FlowType::Mouse, 2, false).unwrap();
    state.submit(FlowType::Elephant, 3, false).unwrap();
    let _ = state.submit(FlowType::Elephant, 4, true);
    let _ = state.dispatch(true);
    state.record_completion();
    let c = state.take_interval_counts();
    assert_eq!(c.mouse_arrivals, 2);
    assert_eq!(c.elephant_arrivals, 1);
    assert_eq!(c.tasks_completed, 1);
    let c = state.take_interval_counts();
    assert_eq!(c.mouse_arrivals, 0);
    assert_eq!(c.elephant_arrivals, 0);
    assert_eq!(c.tasks_completed, 0);
    // the queued tasks stay
    assert_eq!(state.queue_lengths(), (2, 0));
}

#[test]
fn flow_type_is_elephant() {
    assert!(FlowType::Elephant.is_elephant());
    assert!(!FlowType::Mouse.is_elephant());
}

#[test]
fn fifo_within_class_over_interleaved_run() {
    let mut state: SchedulerState<&str> = SchedulerState::new(2);
    let mut mice = Vec::new();
    state.submit(FlowType::Mouse, "m1", false).unwrap();
    state.submit(FlowType::Elephant, "e1", false).unwrap();
    state.submit(FlowType::Mouse, "m2", false).unwrap();
    if let WorkerStep::Run(FlowType::Mouse, t) = state.dispatch(false) {
        mice.push(t);
    }
    state.submit(FlowType::Mouse, "m3", true).unwrap();
    let _ = state.take_interval_counts();
    if let WorkerStep::Run(FlowType::Mouse, t) = state.dispatch(true) {
        mice.push(t);
    }
    state.submit(FlowType::Mouse, "m4", false).unwrap();
    state.shutdown();
    for (flow, t) in drain(&mut state, false) {
        if flow == FlowType::Mouse {
            mice.push(t);
        }
    }
    assert_eq!(mice, vec!["m1", "m2", "m3", "m4"]);
}
