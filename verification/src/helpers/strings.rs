//! String decoding utilities for Windows ETW telemetry payloads.
use vstd::prelude::*;
use vstd::utf8::{decode_utf8, valid_utf8};

use crate::helpers::bytes::{absent, first_index, is_first_index, le16, find_byte_from};
use crate::helpers::text::{
    unicode_trim, utf16_decode, utf16_decode_units, utf8_decode, utf8_decode_lossy, utf8_lossy,
    trim_str,
};

verus! {

/// Error type when parsing strings from raw ETW byte slices.
#[derive(Debug, Clone, Copy, PartialEq, Eq, Structural)]
pub enum StringError {
    /// The buffer holds no null terminator.
    MissingNullTerminator,
    /// The bytes before the terminator are not well-formed UTF-8.
    InvalidEncoding,
}

/// The description of each error.
pub open spec fn string_error_text(e: StringError) -> Seq<char> {
    match e {
        StringError::MissingNullTerminator => "Missing null terminator"@,
        StringError::InvalidEncoding => "Invalid UTF-8 encoding"@,
    }
}

impl StringError {
    /// Human-readable description of the error.
    pub fn message(&self) -> (s: &'static str)
        ensures
            s@ == string_error_text(*self),
    {
        match self {
            StringError::MissingNullTerminator => "Missing null terminator",
            StringError::InvalidEncoding => "Invalid UTF-8 encoding",
        }
    }
}

/// The outcome of parsing a null-terminated 8-bit string from `s`: the decoded characters and
/// the number of bytes consumed, terminator included.
pub open spec fn ansi_parse(s: Seq<u8>) -> Result<(Seq<char>, int), StringError> {
    match first_index(s, 0) {
        None => Err(StringError::MissingNullTerminator),
        Some(p) => if valid_utf8(s.take(p)) {
            Ok((decode_utf8(s.take(p)), p + 1))
        } else {
            Err(StringError::InvalidEncoding)
        },
    }
}

/// Parses a null-terminated ANSI (or UTF-8) string from the start of `bytes`.
///
/// Returns the decoded string and the number of bytes consumed (terminator included).
pub fn parse_ansi_string(bytes: &[u8]) -> (res: Result<(&str, usize), StringError>)
    ensures
        match res {
            Ok((s, n)) => ansi_parse(bytes@) == Ok::<(Seq<char>, int), StringError>(
                (s@, n as int),
            ),
            Err(e) => ansi_parse(bytes@) == Err::<(Seq<char>, int), StringError>(e),
        },
{
    let _len = bytes.len();
    assert(bytes@.subrange(0, bytes@.len() as int) =~= bytes@);
    let null_pos = match find_byte_from(bytes, 0, 0) {
        Some(p) => p,
        None => return Err(StringError::MissingNullTerminator),
    };
    let prefix = &bytes[0..null_pos];
    assert(prefix@ =~= bytes@.take(null_pos as int));
    match utf8_decode(prefix) {
        Some(s) => Ok((s, null_pos + 1)),
        None => Err(StringError::InvalidEncoding),
    }
}

/// The UTF-16 code units of `s` read as consecutive little-endian pairs (a trailing odd
/// byte is ignored).
pub open spec fn utf16_units(s: Seq<u8>) -> Seq<u16> {
    Seq::new((s.len() / 2) as nat, |k: int| le16(s, 2 * k) as u16)
}

/// `i` is the index of the first zero unit in `u`.
pub open spec fn is_first_zero_unit(u: Seq<u16>, i: int) -> bool {
    0 <= i < u.len() && u[i] == 0 && forall|k: int| 0 <= k < i ==> u[k] != 0
}

/// `u` holds no zero unit.
pub open spec fn no_zero_unit(u: Seq<u16>) -> bool {
    forall|k: int| 0 <= k < u.len() ==> u[k] != 0
}

/// The outcome of parsing a null-terminated UTF-16 string from `s`, where `padded` says
/// that the first byte is an alignment pad to skip: the code units before the terminator and
/// the bytes consumed.
pub open spec fn utf16_parse(s: Seq<u8>, padded: bool) -> Result<(Seq<u16>, int), StringError> {
    let pad: int = if padded { 1 } else { 0 };
    if padded && s.len() == 0 {
        Ok((Seq::empty(), 0))
    } else {
        let body = s.subrange(pad, s.len() as int);
        let units = utf16_units(body);
        if units.len() == 0 {
            Ok((Seq::empty(), pad))
        } else if no_zero_unit(units) {
            Err(StringError::MissingNullTerminator)
        } else {
            let z = choose|z: int| is_first_zero_unit(units, z);
            let used = if (z + 1) * 2 <= body.len() { (z + 1) * 2 } else { body.len() as int };
            Ok((units.take(z), pad + used))
        }
    }
}

/// Decodes the little-endian UTF-16 code units of `bytes[from..]` up to (not including) the
/// first zero unit; `None` in the second component when there is no zero unit.
fn units_until_zero(bytes: &[u8], from: usize) -> (r: (Vec<u16>, bool))
    requires
        from <= bytes@.len(),
    ensures
        ({
            let units = utf16_units(bytes@.subrange(from as int, bytes@.len() as int));
            if r.1 {
                is_first_zero_unit(units, r.0@.len() as int) && r.0@ == units.take(
                    r.0@.len() as int,
                )
            } else {
                no_zero_unit(units) && r.0@ == units
            }
        }),
{
    let ghost body = bytes@.subrange(from as int, bytes@.len() as int);
    let ghost units = utf16_units(body);
    let count = (bytes.len() - from) / 2;
    let mut out: Vec<u16> = Vec::new();
    let mut k: usize = 0;
    while k < count
        invariant
            from <= bytes@.len(),
            bytes@.len() <= usize::MAX,
            count == units.len(),
            count * 2 + from <= bytes@.len(),
            body == bytes@.subrange(from as int, bytes@.len() as int),
            units == utf16_units(body),
            k <= count,
            out@ == units.take(k as int),
            forall|j: int| 0 <= j < k ==> units[j] != 0,
        decreases count - k,
    {
        let off = from + 2 * k;
        let lo = bytes[off] as u16;
        let hi = bytes[off + 1] as u16;
        let unit: u16 = lo + hi * 256;
        assert(unit == units[k as int]);
        if unit == 0 {
            return (out, true);
        }
        out.push(unit);
        k = k + 1;
        assert(out@ =~= units.take(k as int));
    }
    assert(out@ =~= units);
    (out, false)
}

/// Parses a null-terminated UTF-16LE string from `bytes`, skipping one leading pad byte
/// when `padded` is set.
///
/// Returns the code units before the terminator and the number of bytes consumed.
pub fn parse_utf16_units(bytes: &[u8], padded: bool) -> (res: Result<(Vec<u16>, usize), StringError>)
    ensures
        utf16_outcome(res, bytes@, padded),
{
    if padded && bytes.len() == 0 {
        return Ok((Vec::new(), 0));
    }
    let pad: usize = if padded { 1 } else { 0 };
    let ghost body = bytes@.subrange(pad as int, bytes@.len() as int);
    let aligned_len = bytes.len() - pad;
    let count = aligned_len / 2;
    if count == 0 {
        return Ok((Vec::new(), pad));
    }
    let (units, found) = units_until_zero(bytes, pad);
    if !found {
        return Err(StringError::MissingNullTerminator);
    }
    let len = units.len();
    proof {
        let u = utf16_units(body);
        let z = choose|z: int| is_first_zero_unit(u, z);
        assert(z == len as int) by {
            if z < len {
                assert(u[z] != 0);
            } else if z > len {
                assert(u[len as int] != 0);
            }
        }
    }
    let full = (len + 1) * 2;
    let used = if full <= aligned_len { full } else { aligned_len };
    Ok((units, pad + used))
}

/// Reads the memory address of the first byte of `bytes` (`<[u8]>::as_ptr`). Nothing is
/// claimed of the value: it depends on where the buffer lives.
#[verifier::external_body]
fn buffer_address(bytes: &[u8]) -> usize {
    bytes.as_ptr() as usize
}

/// `res` is the outcome `utf16_parse` gives for `s` with the given padding.
pub open spec fn utf16_outcome(
    res: Result<(Vec<u16>, usize), StringError>,
    s: Seq<u8>,
    padded: bool,
) -> bool {
    match res {
        Ok((u, n)) => utf16_parse(s, padded) == Ok::<(Seq<u16>, int), StringError>((u@, n as int)),
        Err(e) => utf16_parse(s, padded) == Err::<(Seq<u16>, int), StringError>(e),
    }
}

/// Parses a null-terminated UTF-16LE string from `bytes`.
///
/// When the buffer starts at an odd memory address, its first byte is treated as an
/// alignment pad and skipped (it is counted in the bytes consumed). Whether that happens
/// depends on where the buffer lives; either way the result is that of
/// [`parse_utf16_units`] for the corresponding padding.
pub fn parse_utf16_slice(bytes: &[u8]) -> (res: Result<(Vec<u16>, usize), StringError>)
    ensures
        utf16_outcome(res, bytes@, false) || utf16_outcome(res, bytes@, true),
{
    let addr = buffer_address(bytes);
    let padded = addr % 2 != 0;
    parse_utf16_units(bytes, padded)
}

/// The outcome of reading a null-terminated UTF-16LE string starting at `offset`: the
/// decoded string (when the units form valid UTF-16) and the offset after the terminator.
pub open spec fn utf16_extract(s: Seq<u8>, offset: int) -> (Option<Seq<char>>, int) {
    if offset >= s.len() {
        (None, offset)
    } else {
        let units = utf16_units(s.subrange(offset, s.len() as int));
        let n: int = if no_zero_unit(units) {
            units.len() as int
        } else {
            choose|z: int| is_first_zero_unit(units, z)
        };
        (utf16_decode(units.take(n)), offset + (n + 1) * 2)
    }
}

/// Decodes a null-terminated UTF-16LE string from `bytes` starting at byte `offset`.
///
/// Returns the decoded string (`None` when the code units are not valid UTF-16, or when
/// `offset` is past the end) and the offset immediately following the terminator.
pub fn extract_utf16_string(bytes: &[u8], offset: usize) -> (res: (Option<String>, usize))
    requires
        bytes@.len() <= isize::MAX,
    ensures
        utf16_extract(bytes@, offset as int).1 == res.1 as int,
        match res.0 {
            Some(t) => utf16_extract(bytes@, offset as int).0 == Some(t@),
            None => utf16_extract(bytes@, offset as int).0 is None,
        },
{
    if offset >= bytes.len() {
        return (None, offset);
    }
    let (units, found) = units_until_zero(bytes, offset);
    let n = units.len();
    proof {
        let u = utf16_units(bytes@.subrange(offset as int, bytes@.len() as int));
        if found {
            let z = choose|z: int| is_first_zero_unit(u, z);
            assert(z == n as int) by {
                if z < n {
                    assert(u[z] != 0);
                } else if z > n {
                    assert(u[n as int] != 0);
                }
            }
        } else {
            assert(u.take(u.len() as int) =~= u);
        }
        assert(units@ == u.take(n as int));
    }
    let sl = units.as_slice();
    assert(sl@ == units@);
    let s = utf16_decode_units(sl);
    (s, offset + (n + 1) * 2)
}

/// The text of a null-terminated 8-bit string: the bytes up to the first zero (or the
/// whole buffer), decoded lossily and trimmed of surrounding whitespace.
pub open spec fn ansi_text(s: Seq<u8>) -> Seq<char> {
    let end = match first_index(s, 0) {
        Some(p) => p,
        None => s.len() as int,
    };
    unicode_trim(utf8_lossy(s.take(end)))
}

/// Decodes a null-terminated ANSI (or lossy UTF-8) string, trimmed of surrounding whitespace.
pub fn extract_ansi_string(bytes: &[u8]) -> (res: String)
    ensures
        res@ == ansi_text(bytes@),
{
    assert(bytes@.subrange(0, bytes@.len() as int) =~= bytes@);
    let end = match find_byte_from(bytes, 0, 0) {
        Some(p) => p,
        None => bytes.len(),
    };
    let prefix = &bytes[0..end];
    assert(prefix@ =~= bytes@.take(end as int));
    let decoded = utf8_decode_lossy(prefix);
    let trimmed = trim_str(decoded.as_str());
    trimmed.to_owned()
}

} // verus!
