//! Section characteristics flags.
use vstd::prelude::*;

verus! {

/// Section contains executable code.
pub const IMAGE_SCN_MEM_EXECUTE: u32 = 0x2000_0000;
/// Section can be read.
pub const IMAGE_SCN_MEM_READ: u32 = 0x4000_0000;
/// Section can be written to.
pub const IMAGE_SCN_MEM_WRITE: u32 = 0x8000_0000;

} // verus!
