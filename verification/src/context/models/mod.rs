//! Entity models of the system context.
pub mod handle;
pub mod interaction;
pub mod module;
pub mod token;
pub mod network;
pub mod thread;
pub mod file;
pub mod process;
