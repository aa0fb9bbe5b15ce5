//! Parsing helpers for raw telemetry payloads and text.
pub mod bytes;
pub mod format;
pub mod keyed;
pub mod pe;
pub mod stack_correlator;
pub mod strings;
pub mod symbol_resolver;
pub mod text;
