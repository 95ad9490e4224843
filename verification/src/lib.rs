//! A client-side metrics collection core: an immutable event context, a
//! shared in-memory histogram state, and the controller/worker lifecycle
//! around periodic persist-and-transmit ticks.
//!
//! The controller is the caller-facing facade; the worker owns the periodic
//! tick protocol. Persistence and transmission are external collaborators:
//! the embedding program performs the actual I/O and reports each outcome
//! back into the verified state transitions.

pub mod controller;
pub mod event_info;
pub mod histogram;
pub mod laws;
pub mod shared_state;
pub mod worker;

pub use controller::DEFAULT_BUCKET_COUNT;
pub use controller::MetricsController;
pub use event_info::EventInfo;
pub use histogram::HistogramSet;
pub use shared_state::SharedState;
pub use worker::MetricsWorker;
pub use worker::WorkerStatus;
