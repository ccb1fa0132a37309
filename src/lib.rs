//! Decisions of a small telemetry demo service: which exporters to set up
//! from the configured collector endpoints, and what each tick of the demo
//! loop logs and counts.

pub mod demo;
pub mod endpoint;
pub mod telemetry;
