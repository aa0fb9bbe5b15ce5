//! Checks on the answers of the kernel driver's device. Opening the device and issuing the
//! I/O control request happen outside the library.
use vstd::prelude::*;

use crate::drivers::error::DriverError;

verus! {

/// The outcome of an I/O control request that the driver completed: accepted when the
/// response type has no bytes or the driver wrote at least as many bytes as it has; otherwise
/// the response is truncated and must not be read.
pub fn check_ioctl_response(code: u32, expected: usize, received: usize) -> (r: Result<(), DriverError>)
    ensures
        r is Ok <==> (expected == 0 || received >= expected),
        r is Err ==> r == Err::<(), DriverError>(DriverError::IoctlResponseTruncated { code, expected, received }),
{
    if expected > 0 && received < expected {
        Err(DriverError::IoctlResponseTruncated { code, expected, received })
    } else {
        Ok(())
    }
}

} // verus!
