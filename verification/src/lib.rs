//! A micro-benchmark harness for key-value storage backends.
//!
//! The crate provides a workload generator for random-integer key-value
//! datasets, a uniform adapter contract that every storage backend
//! implements, two verified in-memory backends, a phase state machine
//! that drives one benchmark run per backend, and a reporter that
//! renders phase durations as text lines.

pub mod adapter;
pub mod batch;
pub mod clock;
pub mod fastmap;
pub mod report;
pub mod runner;
pub mod store;
pub mod workload;
