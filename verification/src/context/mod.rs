//! System-wide execution context: processes, files, network connections and the
//! interactions between them, with retention of exited processes.
pub mod identity;
pub mod models;
pub mod registries;
pub mod config;
pub mod retention;
pub mod correlation;
pub mod system;
pub mod handlers;
pub mod enrichment;
pub mod query;
