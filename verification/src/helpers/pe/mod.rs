//! Portable Executable (PE) header parser and export directory extraction.
pub mod error;
pub mod file_flags;
pub mod machine;
pub mod magic;
pub mod models;
pub mod parser;
pub mod section_flags;

pub use error::PeError;
pub use models::{PeExport, PeExportDirectory, PeInfo, PeSection};
pub use parser::PeParser;
