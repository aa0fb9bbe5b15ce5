//! Kernel driver client support: the errors of the driver and service control, and the
//! checks on the driver's answers.
pub mod error;
pub mod kmdf;
