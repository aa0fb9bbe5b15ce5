//! Error taxonomy for Portable Executable (PE) parsing.
use vstd::prelude::*;

use crate::helpers::format::{decimal, hex_lower_num, push_decimal, push_hex_lower, push_str, to_string};

verus! {

/// Error conditions encountered when decoding PE headers.
#[derive(Debug, Clone, PartialEq, Eq)]
pub enum PeError {
    /// The buffer is shorter than the minimum expected structure size.
    BufferTooSmall {
        /// Expected minimum byte length.
        expected: usize,
        /// Actual available byte length.
        actual: usize,
    },
    /// The buffer does not start with the DOS magic `"MZ"`.
    InvalidDosSignature,
    /// `e_lfanew` points outside the buffer.
    InvalidPeHeaderOffset(usize),
    /// The NT signature is not `"PE\0\0"`.
    InvalidPeSignature,
    /// The optional header magic is neither PE32 nor PE32+.
    UnsupportedOptionalHeaderMagic(u16),
    /// The section header table is truncated.
    TruncatedSectionHeaders,
    /// The export table RVA does not map into the file.
    ExportTableRvaOutOfBounds(u32),
    /// An export name or DLL name pointer is malformed.
    InvalidExportStringPointer,
    /// The file could not be read.
    IoError(String),
}

/// The human-readable message of a PE parsing error.
pub open spec fn pe_error_text(e: PeError) -> Seq<char> {
    match e {
        PeError::BufferTooSmall { expected, actual } => "PE buffer too small: expected at least "@
            + decimal(expected as nat) + " bytes, got "@ + decimal(actual as nat),
        PeError::InvalidDosSignature => "Invalid DOS header signature (missing MZ)"@,
        PeError::InvalidPeHeaderOffset(o) => "Invalid PE header offset (e_lfanew: 0x"@ + hex_lower_num(
            o as nat,
        ) + ")"@,
        PeError::InvalidPeSignature => "Invalid NT PE signature (missing PE\\0\\0)"@,
        PeError::UnsupportedOptionalHeaderMagic(m) => "Unsupported optional header magic: 0x"@
            + hex_lower_num(m as nat),
        PeError::TruncatedSectionHeaders => "Section headers are truncated or out of bounds"@,
        PeError::ExportTableRvaOutOfBounds(r) => "Export directory RVA 0x"@ + hex_lower_num(r as nat)
            + " does not fall within any PE section"@,
        PeError::InvalidExportStringPointer => "Exported function name or DLL name string pointer is invalid"@,
        PeError::IoError(m) => "PE file I/O error: "@ + m@,
    }
}

impl PeError {
    /// The human-readable message.
    pub fn message(&self) -> (s: String)
        ensures
            s@ == pe_error_text(*self),
    {
        let mut v: Vec<char> = Vec::new();
        match self {
            PeError::BufferTooSmall { expected, actual } => {
                push_str(&mut v, "PE buffer too small: expected at least ");
                push_decimal(&mut v, *expected as u64);
                push_str(&mut v, " bytes, got ");
                push_decimal(&mut v, *actual as u64);
            },
            PeError::InvalidDosSignature => push_str(&mut v, "Invalid DOS header signature (missing MZ)"),
            PeError::InvalidPeHeaderOffset(o) => {
                push_str(&mut v, "Invalid PE header offset (e_lfanew: 0x");
                push_hex_lower(&mut v, *o as u64);
                push_str(&mut v, ")");
            },
            PeError::InvalidPeSignature => push_str(&mut v, "Invalid NT PE signature (missing PE\\0\\0)"),
            PeError::UnsupportedOptionalHeaderMagic(m) => {
                push_str(&mut v, "Unsupported optional header magic: 0x");
                push_hex_lower(&mut v, *m as u64);
            },
            PeError::TruncatedSectionHeaders => push_str(&mut v, "Section headers are truncated or out of bounds"),
            PeError::ExportTableRvaOutOfBounds(r) => {
                push_str(&mut v, "Export directory RVA 0x");
                push_hex_lower(&mut v, *r as u64);
                push_str(&mut v, " does not fall within any PE section");
            },
            PeError::InvalidExportStringPointer => push_str(
                &mut v,
                "Exported function name or DLL name string pointer is invalid",
            ),
            PeError::IoError(m) => {
                push_str(&mut v, "PE file I/O error: ");
                push_str(&mut v, m.as_str());
            },
        }
        assert(v@ =~= pe_error_text(*self));
        to_string(&v)
    }
}

} // verus!
