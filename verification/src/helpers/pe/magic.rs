//! Optional header magic values.
use vstd::prelude::*;

verus! {

/// Standard 32-bit PE32 image.
pub const PE32: u16 = 0x010b;
/// 64-bit PE32+ image.
pub const PE32_PLUS: u16 = 0x020b;
/// ROM image.
pub const ROM: u16 = 0x0107;

} // verus!
