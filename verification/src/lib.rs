//! Core library of the Pulsar endpoint telemetry agent.
pub mod alerts;
pub mod bootstrap;
pub mod cli;
pub mod context;
pub mod drivers;
pub mod error;
pub mod helpers;
pub mod pipeline;
