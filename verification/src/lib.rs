//! Observability bootstrap and lifecycle core.
//!
//! From a handful of endpoint settings and a set of resource attributes this
//! crate wires three export pipelines (traces, logs, metrics) into one unit
//! that can be shut down in an orderly way.

pub mod bridge;
pub mod config;
pub mod error;
pub mod exporter;
pub mod lifecycle;
pub mod logs;
pub mod metrics;
pub mod profiler;
pub mod protocol;
pub mod provider;
pub mod resource;
pub mod sdk;
pub mod shutdown;
pub mod signal;
pub mod tracer;
