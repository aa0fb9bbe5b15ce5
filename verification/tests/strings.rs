use pulsar::helpers::strings::{
    extract_ansi_string, extract_utf16_string, parse_ansi_string, parse_utf16_slice,
    parse_utf16_units, StringError,
};

fn utf16_bytes(units: &[u16]) -> Vec<u8> {
    units.iter().flat_map(|u| u.to_le_bytes()).collect()
}

#[test]
fn test_parse_ansi_string_valid() {
    let buffer = b"svchost.exe\0trailing_garbage";
    let (s, consumed) = parse_ansi_string(buffer).expect("Should parse ANSI string");
    assert_eq!(s, "svchost.exe");
    assert_eq!(consumed, 12);
}

#[test]
fn test_parse_ansi_string_missing_null() {
    let buffer = b"unterminated_process_name";
    let res = parse_ansi_string(buffer);
    assert_eq!(res, Err(StringError::MissingNullTerminator));
}

#[test]
fn test_parse_ansi_string_invalid_utf8() {
    let buffer = &[0xFF, 0xFE, 0xFD, 0x00];
    let res = parse_ansi_string(buffer);
    assert_eq!(res, Err(StringError::InvalidEncoding));
}

#[test]
fn test_parse_utf16_slice_aligned_and_unaligned() {
    let aligned_data: [u16; 5] = [b'c' as u16, b'm' as u16, b'd' as u16, 0, 0x1234];
    let aligned_bytes = utf16_bytes(&aligned_data);
    let (slice, consumed) = parse_utf16_units(&aligned_bytes, false).expect("Aligned UTF-16 should parse");
    assert_eq!(slice, vec![b'c' as u16, b'm' as u16, b'd' as u16]);
    assert_eq!(consumed, 8);

    let mut raw_buf = vec![0x00u8; 32];
    let base_ptr = raw_buf.as_ptr() as usize;
    let odd_offset = if base_ptr % 2 == 0 { 1 } else { 0 };
    raw_buf[odd_offset + 1..odd_offset + 1 + aligned_bytes.len()].copy_from_slice(&aligned_bytes);
    let odd_slice = &raw_buf[odd_offset..odd_offset + 1 + aligned_bytes.len()];
    let (slice_unaligned, consumed_unaligned) =
        parse_utf16_slice(odd_slice).expect("Unaligned UTF-16 should parse");
    assert_eq!(slice_unaligned, vec![b'c' as u16, b'm' as u16, b'd' as u16]);
    assert_eq!(consumed_unaligned, 9);
}

#[test]
fn test_parse_utf16_slice_missing_null() {
    let unterminated: [u16; 3] = [b'a' as u16, b'b' as u16, b'c' as u16];
    let bytes = utf16_bytes(&unterminated);
    let res = parse_utf16_units(&bytes, false);
    assert_eq!(res, Err(StringError::MissingNullTerminator));
}

#[test]
fn test_parse_utf16_slice_empty() {
    assert_eq!(parse_utf16_slice(&[]), Ok((Vec::new(), 0)));
    assert_eq!(parse_utf16_units(&[0x00], false), Ok((Vec::new(), 0)));
    assert_eq!(parse_utf16_units(&[0x00], true), Ok((Vec::new(), 1)));
}

#[test]
fn test_extract_utf16_string_bounds() {
    let mut wide: Vec<u8> = "notepad.exe\0".encode_utf16().flat_map(|c| c.to_le_bytes()).collect();
    wide.extend_from_slice(&[0x99, 0x99]);

    let (extracted, next_offset) = extract_utf16_string(&wide, 0);
    assert_eq!(extracted, Some("notepad.exe".to_string()));
    assert_eq!(next_offset, 24);

    let (out_of_bounds, ret_offset) = extract_utf16_string(&wide, 100);
    assert_eq!(out_of_bounds, None);
    assert_eq!(ret_offset, 100);
}

#[test]
fn extract_ansi_string_trims_at_terminator() {
    assert_eq!(extract_ansi_string(b"  cmd.exe \0junk"), "cmd.exe");
    assert_eq!(extract_ansi_string(b"no_terminator"), "no_terminator");
}

#[test]
fn utf16_invalid_surrogate_is_rejected() {
    let bytes = utf16_bytes(&[0xD800, 0x0041, 0]);
    let (s, next) = extract_utf16_string(&bytes, 0);
    assert_eq!(s, None);
    assert_eq!(next, 6);
}

#[test]
fn string_error_messages() {
    assert_eq!(StringError::MissingNullTerminator.message(), "Missing null terminator");
    assert_eq!(StringError::InvalidEncoding.message(), "Invalid UTF-8 encoding");
}
