//! Engine of a closed-loop load generator for a key-value service.
//!
//! The crate holds the decisions and the arithmetic of a benchmark run: which
//! operation a worker issues next and with which key, where an outcome is
//! recorded, when the controller reports progress, and how the recorded
//! latencies reduce to a summary. Sending requests, waiting and printing are
//! left to the caller. Durations are whole nanoseconds throughout, and rates
//! and shares are whole hundredths.

pub mod config;
pub mod mode;
pub mod progress;
pub mod request;
pub mod stats;
pub mod store;
pub mod worker;
