//! The agent's command-line options, as plain values. Parsing the command line is done
//! outside the library.
use vstd::prelude::*;

verus! {

/// Verbosity of the log.
#[derive(Debug, Clone, Copy, PartialEq, Eq, Structural)]
pub enum LogMode {
    /// No logging.
    Off,
    /// Errors only.
    Error,
    /// Warnings and errors.
    Warn,
    /// Information, warnings and errors.
    Info,
    /// Debug output too.
    Debug,
    /// Everything, including internal state transitions.
    Trace,
}

/// The agent's command-line options.
#[derive(Debug, Clone, PartialEq, Eq)]
pub struct Cli {
    /// Stop and remove the driver service, then exit.
    pub uninstall: bool,
    /// Log verbosity, when given.
    pub log_mode: Option<LogMode>,
    /// File to write the log to instead of the console, when given.
    pub log_file: Option<String>,
    /// Disable direct-syscall detection and stack tracing.
    pub disable_syscalls: bool,
    /// Disable process and module context tracking.
    pub disable_context: bool,
    /// Skip driver loading and protection elevation.
    pub skip_driver: bool,
}

impl Cli {
    /// Direct-syscall detection runs.
    pub fn syscalls_enabled(&self) -> (b: bool)
        ensures
            b == !self.disable_syscalls,
    {
        !self.disable_syscalls
    }

    /// Context tracking runs.
    pub fn context_enabled(&self) -> (b: bool)
        ensures
            b == !self.disable_context,
    {
        !self.disable_context
    }

    /// Nothing consumes the events: neither detection nor context tracking runs.
    pub fn is_pass_through(&self) -> (b: bool)
        ensures
            b == (self.disable_syscalls && self.disable_context),
    {
        self.disable_syscalls && self.disable_context
    }
}

} // verus!
