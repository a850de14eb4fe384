//! Deterministic planning core for a process-wide structured-logging and
//! tracing subsystem: given a configuration value and an optional remote
//! exporter endpoint, it decides where log events go (console or rotating
//! files), which severity window each destination accepts, and how the one
//! global event pipeline is composed and installed exactly once.

pub mod config;
pub mod digits;
pub mod filter;
pub mod paths;
pub mod pipeline;
