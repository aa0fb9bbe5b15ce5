//! Alerts raised by detections, their distribution, and their rendering for the console.
pub mod manager;
pub mod model;
pub mod sinks;
