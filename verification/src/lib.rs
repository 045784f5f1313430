//! Benchmark harness library for measuring container start-up latency on a
//! Knative cluster.
//!
//! The heart of the crate is the event-timeline extraction engine in
//! [`containerd`]: it scans a stream of log entries (timestamp plus free-text
//! message) and reconstructs the lifecycle intervals of one deployment's
//! sandbox and its two sibling containers. The surrounding modules hold the
//! verified decision and formatting logic of the harness: experiment
//! planning, result-row formatting, and the small parsers that interpret
//! command output.

pub mod args;
pub mod baselines;
pub mod containerd;
pub mod cri;
pub mod deploy;
pub mod env;
pub mod experiment;
pub mod kubernetes;
pub mod text;
