//! Telemetry bootstrap: turns a snapshot of the process environment into a
//! validated trace-exporter configuration, and manages the optional tracer
//! provider built from it.
pub mod config;
pub mod environment;
pub mod error;
pub mod headers;
pub mod lifecycle;
pub mod reply;
pub mod text;
