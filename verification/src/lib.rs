//! Host telemetry sampling library.
//!
//! Collects point-in-time and time-averaged hardware metrics (CPU
//! utilization, memory usage, GPU load and frequency, battery charge,
//! kernel identity) from operating-system-exposed virtual filesystem
//! nodes and renders them into a single human-readable report.
//!
//! Individual metric nodes may be absent, renamed, or transiently
//! unreadable depending on the device and kernel variant, so every
//! reader here degrades gracefully: a missing node collapses to a
//! zero or "N/A" default at the smallest possible scope, and the
//! report as a whole is always produced.

pub mod battery;
pub mod cpu;
pub mod gpu;
pub mod node;
pub mod report;
pub mod text;
