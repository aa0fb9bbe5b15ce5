//! Machine architecture identifiers from the COFF file header.
use vstd::prelude::*;

verus! {

/// Intel 386 (32-bit x86).
pub const IMAGE_FILE_MACHINE_I386: u16 = 0x014c;
/// AMD64 (x64 / 64-bit x86).
pub const IMAGE_FILE_MACHINE_AMD64: u16 = 0x8664;
/// ARM little endian.
pub const IMAGE_FILE_MACHINE_ARM: u16 = 0x01c0;
/// ARM64 little endian.
pub const IMAGE_FILE_MACHINE_ARM64: u16 = 0xaa64;

} // verus!
