//! Priority-aware scheduling of mixed workloads: lightweight, latency-sensitive
//! "mouse" flows and heavy, throughput-oriented "elephant" flows share a pool of
//! workers. The library holds the scheduler's state machine (admission control,
//! per-class FIFO queues, load-dependent dispatch, graceful shutdown) and the
//! baseline shortest-job-first queue, each with a contract over a
//! mathematical model and the laws that relate the operations.

pub mod types;
pub mod state;
pub mod sjf;
pub mod sjf_queue;
pub mod workload;
pub mod laws;
pub mod operation_laws;

pub use types::{FlowType, SubmitError, WorkerStep};
pub use sjf::SjfTask;
pub use sjf_queue::{SjfQueue, SjfWorkerStep};
pub use state::{SchedulerState, SchedulerView, IntervalCounts};
