//! The readiness protocol between a worker's native completion queue and the
//! cooperative tasks it drives: submission, wake-trigger arming, draining and
//! the per-suspension wake callbacks.

pub mod cq;
pub mod fifo;
pub mod laws;
pub mod notify;
pub mod queue;

pub use cq::CompletionQueue;
pub use notify::{PollOutcome, QueueNotify, poll};
pub use queue::{DrainStep, ReadyQueue, Submitted};
