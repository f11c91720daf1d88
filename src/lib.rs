//! Telemetry pipeline of a system monitor: a sampler that discards its warm-up
//! reading, a sliding window of CPU readings, and two chart renderers (a CPU trend
//! line and a memory ring gauge) that redraw only when their data or region change.

pub mod gauge;
pub mod geometry;
pub mod history;
pub mod line_chart;
pub mod monitor;
pub mod sampler;
