# flow_prioritize

Priority-aware scheduling of mixed asynchronous workloads: latency-sensitive
"mouse" flows and heavy "elephant" flows share a pool of workers.

- `src/` is the library, with its contracts and laws:
  - `types.rs`: flow classes, submission errors, a worker's next step;
  - `state.rs`: the scheduler's state machine (admission control, per-class
    FIFO queues, load-dependent dispatch, wake-up accounting, graceful
    shutdown, interval counters) with its mathematical model `SchedulerView`;
  - `sjf.rs`, `sjf_queue.rs`: the shortest-job-first baseline's order and queue;
  - `workload.rs`: the benchmark's workload (class mix, durations, pacing,
    trace rows);
  - `laws.rs`: properties of the scheduler and of the SJF queue, proved over
    the model.
- `app/` runs it on Tokio: the scheduler handle, the worker and metrics loops
  (the load estimates are floating point and live there), and the benchmark
  that writes CSV traces.
- `tests/` exercises the library.
