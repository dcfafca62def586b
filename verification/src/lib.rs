//! A bounded single-producer / multiple-consumer queue and the integer
//! bookkeeping of the benchmark that drives it.
//!
//! The queue in [`queue`] is the state that a monitor protects: every method is
//! one critical section and never blocks. Where the caller would have to wait,
//! the method says so in its result, and the caller waits and tries again.

pub mod harness;
pub mod history;
pub mod lifecycle;
pub mod plan;
pub mod queue;
