//! Characteristic flags from the COFF file header.
use vstd::prelude::*;

verus! {

/// File is a dynamic-link library (DLL).
pub const IMAGE_FILE_DLL: u16 = 0x2000;
/// File is executable (no unresolved externals).
pub const IMAGE_FILE_EXECUTABLE_IMAGE: u16 = 0x0002;
/// Application can handle addresses above 2 GB.
pub const IMAGE_FILE_LARGE_ADDRESS_AWARE: u16 = 0x0020;

} // verus!
