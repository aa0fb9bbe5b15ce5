//! Normalized domain events produced by telemetry ingestion.
pub mod event;
