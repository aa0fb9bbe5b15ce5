//! Errors of the kernel driver client and the service control manager.
use vstd::prelude::*;

use crate::helpers::format::{decimal, hex_upper, push_decimal, push_hex_upper, push_str, to_string};

verus! {

/// A driver or service-control failure.
#[derive(Debug, Clone, PartialEq, Eq)]
pub enum DriverError {
    /// The driver service is not registered; its name.
    ServiceNotRegistered(String),
    /// Opening the driver's device failed.
    DeviceConnectFailed {
        /// Device path.
        device: &'static str,
        /// Windows error code.
        code: u32,
        /// System message for the code.
        message: String,
    },
    /// An IOCTL answered with fewer bytes than its response type needs.
    IoctlResponseTruncated {
        /// The IOCTL code.
        code: u32,
        /// Bytes expected.
        expected: usize,
        /// Bytes received.
        received: usize,
    },
    /// The service configuration has no binary path.
    NullBinaryPath,
    /// Another Windows API failure.
    WindowsApi {
        /// Windows error code.
        code: u32,
        /// System message for the code.
        message: String,
    },
}

/// The human-readable message of a driver error.
pub open spec fn driver_error_text(e: DriverError) -> Seq<char> {
    match e {
        DriverError::ServiceNotRegistered(name) => "Driver service '"@ + name@
            + "' is not registered in the Service Control Manager"@,
        DriverError::DeviceConnectFailed { device, code, message } => "Failed to connect to KMDF device '"@
            + device@ + "': Windows Error "@ + decimal(code as nat) + ": "@ + message@,
        DriverError::IoctlResponseTruncated { code, expected, received } => "IOCTL 0x"@ + hex_upper(
            code as nat,
        ) + " response truncated: expected "@ + decimal(expected as nat) + " bytes, received "@
            + decimal(received as nat) + " bytes"@,
        DriverError::NullBinaryPath => "Driver service configuration contains a null binary path"@,
        DriverError::WindowsApi { code, message } => "Windows Driver/SCM Error "@ + decimal(
            code as nat,
        ) + ": "@ + message@,
    }
}

impl DriverError {
    /// A Windows API failure with the system's message for its code.
    pub fn windows_api(code: u32, message: String) -> (e: Self)
        ensures
            e == (DriverError::WindowsApi { code, message }),
    {
        DriverError::WindowsApi { code, message }
    }

    /// The human-readable message.
    pub fn message(&self) -> (s: String)
        ensures
            s@ == driver_error_text(*self),
    {
        let mut v: Vec<char> = Vec::new();
        match self {
            DriverError::ServiceNotRegistered(name) => {
                push_str(&mut v, "Driver service '");
                push_str(&mut v, name.as_str());
                push_str(&mut v, "' is not registered in the Service Control Manager");
            },
            DriverError::DeviceConnectFailed { device, code, message } => {
                push_str(&mut v, "Failed to connect to KMDF device '");
                push_str(&mut v, device);
                push_str(&mut v, "': Windows Error ");
                push_decimal(&mut v, *code as u64);
                push_str(&mut v, ": ");
                push_str(&mut v, message.as_str());
            },
            DriverError::IoctlResponseTruncated { code, expected, received } => {
                push_str(&mut v, "IOCTL 0x");
                push_hex_upper(&mut v, *code as u64);
                push_str(&mut v, " response truncated: expected ");
                push_decimal(&mut v, *expected as u64);
                push_str(&mut v, " bytes, received ");
                push_decimal(&mut v, *received as u64);
                push_str(&mut v, " bytes");
            },
            DriverError::NullBinaryPath => {
                push_str(&mut v, "Driver service configuration contains a null binary path");
            },
            DriverError::WindowsApi { code, message } => {
                push_str(&mut v, "Windows Driver/SCM Error ");
                push_decimal(&mut v, *code as u64);
                push_str(&mut v, ": ");
                push_str(&mut v, message.as_str());
            },
        }
        assert(v@ =~= driver_error_text(*self));
        to_string(&v)
    }
}

} // verus!
