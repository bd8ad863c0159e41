//! Instrumentation and request-shortcut layer of a transactional key-value
//! storage node.
//!
//! - [`command`]: the closed sets of command kinds, stages and priorities
//!   that label every metric.
//! - [`statistics`]: per-command read statistics and per-region flow
//!   statistics, and how they merge.
//! - [`metrics`]: the accumulator that each worker thread owns, and its
//!   flush into the process-wide counters and to the flow reporter.
//! - [`conservation`]: the proof that flushing reports what was recorded.
//! - [`registry`] and [`clock`]: what the layer uses of the metrics registry
//!   and of the wall clock.
//! - [`trace`] and [`wire`]: the causal span model and its wire form.
//! - [`cache`]: the handler that answers a coprocessor request from the data
//!   version of its snapshot alone.

pub mod cache;
pub mod clock;
pub mod command;
pub mod conservation;
pub mod metrics;
pub mod registry;
pub mod statistics;
pub mod trace;
pub mod wire;
