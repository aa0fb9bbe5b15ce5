//! Application errors and their messages.
use vstd::prelude::*;

use crate::drivers::error::{driver_error_text, DriverError};
use crate::helpers::format::{decimal, push_decimal, push_str, to_string};
use crate::helpers::text::{trim_str, unicode_trim, utf16_decode_lossy, utf16_lossy};

verus! {

/// A telemetry payload could not be handled.
#[derive(Debug, Clone, PartialEq, Eq)]
pub enum HandlerError {
    /// The payload is shorter than the event's fixed layout.
    PayloadTooShort {
        /// Bytes the layout needs.
        expected: usize,
        /// Bytes present.
        actual: usize,
    },
    /// The event names a process that is not tracked.
    ProcessNotFound(u32),
}

/// A failure of the kernel trace session.
#[derive(Debug, Clone, Copy, PartialEq, Eq, Structural)]
pub enum EtwError {
    /// The kernel logger is held by another session.
    KernelLoggerAlreadyActive,
}

/// A failure of the start-up sequence.
#[derive(Debug, Clone, PartialEq, Eq)]
pub enum BootstrapError {
    /// The agent is not running as administrator.
    AdminPrivilegesRequired,
    /// The process token is not elevated.
    NotElevated,
    /// The protection level requested from the driver was not applied.
    PplVerificationFailed,
    /// Installing the driver package failed with this Windows error code.
    DriverInstallationFailed(u32),
    /// The driver package was not found next to the executable.
    PackageFilesNotFound {
        /// Directory that was searched.
        expected_path: String,
    },
    /// Another start-up failure, described by its message.
    Failed(String),
}

/// Any error of the application.
#[derive(Debug, Clone, PartialEq, Eq)]
pub enum AppError {
    /// A trace-session failure.
    Etw(EtwError),
    /// A driver failure.
    Driver(DriverError),
    /// A start-up failure.
    Bootstrap(BootstrapError),
    /// A Windows API failure.
    WindowsApi {
        /// Windows error code.
        code: u32,
        /// System message for the code.
        message: String,
    },
    /// An internal failure.
    Internal(String),
}

/// The message of a trace-session failure.
pub open spec fn etw_error_text(e: EtwError) -> Seq<char> {
    match e {
        EtwError::KernelLoggerAlreadyActive => "The NT Kernel Logger is already active or locked by another instance"@,
    }
}

/// The message of a start-up failure.
pub open spec fn bootstrap_error_text(e: BootstrapError) -> Seq<char> {
    match e {
        BootstrapError::AdminPrivilegesRequired => "Administrator privileges are required"@,
        BootstrapError::NotElevated => "The process token is not elevated"@,
        BootstrapError::PplVerificationFailed => "Process protection level verification failed"@,
        BootstrapError::DriverInstallationFailed(code) => "Driver installation failed: Windows Error "@
            + decimal(code as nat),
        BootstrapError::PackageFilesNotFound { expected_path } => "Driver package files not found in "@
            + expected_path@,
        BootstrapError::Failed(m) => "Bootstrap failed: "@ + m@,
    }
}

/// The message of an application error: that of the wrapped error, where one is wrapped.
pub open spec fn app_error_text(e: AppError) -> Seq<char> {
    match e {
        AppError::Etw(inner) => etw_error_text(inner),
        AppError::Driver(inner) => driver_error_text(inner),
        AppError::Bootstrap(inner) => bootstrap_error_text(inner),
        AppError::WindowsApi { code, message } => "Windows API Error "@ + decimal(code as nat) + ": "@
            + message@,
        AppError::Internal(m) => "Internal Error: "@ + m@,
    }
}

impl EtwError {
    /// The human-readable message.
    pub fn message(&self) -> (s: String)
        ensures
            s@ == etw_error_text(*self),
    {
        match self {
            EtwError::KernelLoggerAlreadyActive => "The NT Kernel Logger is already active or locked by another instance".to_owned(),
        }
    }
}

impl BootstrapError {
    /// The human-readable message.
    pub fn message(&self) -> (s: String)
        ensures
            s@ == bootstrap_error_text(*self),
    {
        let mut v: Vec<char> = Vec::new();
        match self {
            BootstrapError::AdminPrivilegesRequired => push_str(&mut v, "Administrator privileges are required"),
            BootstrapError::NotElevated => push_str(&mut v, "The process token is not elevated"),
            BootstrapError::PplVerificationFailed => push_str(&mut v, "Process protection level verification failed"),
            BootstrapError::DriverInstallationFailed(code) => {
                push_str(&mut v, "Driver installation failed: Windows Error ");
                push_decimal(&mut v, *code as u64);
            },
            BootstrapError::PackageFilesNotFound { expected_path } => {
                push_str(&mut v, "Driver package files not found in ");
                push_str(&mut v, expected_path.as_str());
            },
            BootstrapError::Failed(m) => {
                push_str(&mut v, "Bootstrap failed: ");
                push_str(&mut v, m.as_str());
            },
        }
        assert(v@ =~= bootstrap_error_text(*self));
        to_string(&v)
    }
}

/// The text of a Windows error: the system's message (its first `len` UTF-16 units, trimmed)
/// when it supplied one, else a note naming the code.
pub open spec fn win32_message_text(code: u32, buffer: Seq<u16>, len: nat) -> Seq<char> {
    if len > 0 {
        unicode_trim(utf16_lossy(buffer.take(len as int)))
    } else {
        "Unknown Windows error code "@ + decimal(code as nat)
    }
}

/// The text of a Windows error from the system's answer: `len` is the number of UTF-16 units
/// it wrote into `buffer` (0 when it has no message for `code`). See [`win32_message_text`].
pub fn format_win32_error_message(code: u32, buffer: &[u16], len: u32) -> (s: String)
    requires
        len <= buffer@.len(),
    ensures
        s@ == win32_message_text(code, buffer@, len as nat),
{
    if len > 0 {
        let mut units: Vec<u16> = Vec::new();
        let mut i: usize = 0;
        while i < len as usize
            invariant
                i <= len,
                len <= buffer@.len(),
                units@ == buffer@.take(i as int),
            decreases len - i,
        {
            units.push(buffer[i]);
            i = i + 1;
            assert(units@ =~= buffer@.take(i as int));
        }
        let decoded = utf16_decode_lossy(units.as_slice());
        trim_str(decoded.as_str()).to_owned()
    } else {
        let mut v: Vec<char> = Vec::new();
        push_str(&mut v, "Unknown Windows error code ");
        push_decimal(&mut v, code as u64);
        to_string(&v)
    }
}

impl AppError {
    /// A Windows API failure with its message.
    pub fn from_win32(code: u32, message: String) -> (e: Self)
        ensures
            e == (AppError::WindowsApi { code, message }),
    {
        AppError::WindowsApi { code, message }
    }

    /// A start-up failure described by `msg`.
    pub fn bootstrap(msg: String) -> (e: Self)
        ensures
            e == AppError::Bootstrap(BootstrapError::Failed(msg)),
    {
        AppError::Bootstrap(BootstrapError::Failed(msg))
    }

    /// An internal failure described by `msg`.
    pub fn internal(msg: String) -> (e: Self)
        ensures
            e == AppError::Internal(msg),
    {
        AppError::Internal(msg)
    }

    /// The human-readable message.
    pub fn message(&self) -> (s: String)
        ensures
            s@ == app_error_text(*self),
    {
        match self {
            AppError::Etw(inner) => inner.message(),
            AppError::Driver(inner) => inner.message(),
            AppError::Bootstrap(inner) => inner.message(),
            AppError::WindowsApi { code, message } => {
                let mut v: Vec<char> = Vec::new();
                push_str(&mut v, "Windows API Error ");
                push_decimal(&mut v, *code as u64);
                push_str(&mut v, ": ");
                push_str(&mut v, message.as_str());
                assert(v@ =~= app_error_text(*self));
                to_string(&v)
            },
            AppError::Internal(m) => {
                let mut v: Vec<char> = Vec::new();
                push_str(&mut v, "Internal Error: ");
                push_str(&mut v, m.as_str());
                assert(v@ =~= app_error_text(*self));
                to_string(&v)
            },
        }
    }
}

impl From<EtwError> for AppError {
    fn from(e: EtwError) -> (r: Self) {
        AppError::Etw(e)
    }
}

impl vstd::std_specs::convert::FromSpecImpl<EtwError> for AppError {
    open spec fn obeys_from_spec() -> bool {
        true
    }

    open spec fn from_spec(e: EtwError) -> AppError {
        AppError::Etw(e)
    }
}

impl From<DriverError> for AppError {
    fn from(e: DriverError) -> (r: Self) {
        AppError::Driver(e)
    }
}

impl vstd::std_specs::convert::FromSpecImpl<DriverError> for AppError {
    open spec fn obeys_from_spec() -> bool {
        true
    }

    open spec fn from_spec(e: DriverError) -> AppError {
        AppError::Driver(e)
    }
}

impl From<BootstrapError> for AppError {
    fn from(e: BootstrapError) -> (r: Self) {
        AppError::Bootstrap(e)
    }
}

impl vstd::std_specs::convert::FromSpecImpl<BootstrapError> for AppError {
    open spec fn obeys_from_spec() -> bool {
        true
    }

    open spec fn from_spec(e: BootstrapError) -> AppError {
        AppError::Bootstrap(e)
    }
}

/// Wrapping a domain error keeps its message.
pub proof fn lemma_wrapped_messages(etw: EtwError, drv: DriverError, boot: BootstrapError)
    ensures
        app_error_text(AppError::Etw(etw)) == etw_error_text(etw),
        app_error_text(AppError::Driver(drv)) == driver_error_text(drv),
        app_error_text(AppError::Bootstrap(boot)) == bootstrap_error_text(boot),
{
}

} // verus!
