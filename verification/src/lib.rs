//! A bounded-concurrency load-testing harness.
//!
//! The engine drives a configured number of identical operations against a
//! target while a counting permit pool keeps at most `concurrency_limit` of
//! them in flight, classifies and records every outcome together with its
//! latency, and finally derives a statistical report (throughput, success
//! rate, nearest-rank latency percentiles) from the recorded run.
//!
//! A companion audit module classifies the rows of a sequential blob-integrity
//! scan with the same discipline: every row is counted exactly once.

pub mod audit;
pub mod config;
pub mod dispatch;
pub mod gate;
pub mod outcome;
pub mod recorder;
pub mod report;
