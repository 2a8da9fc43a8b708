use stk500::StkError;
use stk500::hex::hex_to_buffer;

#[test]
fn sixteen_byte_record_with_eof() {
    let input = String::from(":10000000AABBCCDDEEFF00112233445566778899F2\n:00000001FF");
    let buf = hex_to_buffer(&input).expect("well-formed image");
    assert_eq!(buf.len(), 16);
    assert_eq!(
        buf,
        vec![
            0xAA, 0xBB, 0xCC, 0xDD, 0xEE, 0xFF, 0x00, 0x11, 0x22, 0x33, 0x44, 0x55, 0x66, 0x77,
            0x88, 0x99
        ]
    );
}

#[test]
fn uncovered_addresses_read_erased() {
    // one byte at 0, one byte at 4: everything between stays 0xFF
    let input = String::from(":01000000AA55\n:01000400BB40");
    let buf = hex_to_buffer(&input).expect("well-formed image");
    assert_eq!(buf, vec![0xAA, 0xFF, 0xFF, 0xFF, 0xBB]);
}

#[test]
fn empty_input_gives_empty_buffer() {
    let input = String::new();
    assert_eq!(hex_to_buffer(&input), Ok(Vec::new()));
}

#[test]
fn eof_record_does_not_terminate() {
    // records after the end-of-file record are still applied
    let input = String::from(":00000001FF\n:01000000AA55");
    let buf = hex_to_buffer(&input).expect("well-formed image");
    assert_eq!(buf, vec![0xAA]);
}

#[test]
fn checksum_is_not_validated() {
    // the checksum digits are never read: a wrong one, or none, is accepted
    let wrong = String::from(":01000000AB00");
    assert_eq!(hex_to_buffer(&wrong), Ok(vec![0xAB]));
    let missing = String::from(":01000000AC");
    assert_eq!(hex_to_buffer(&missing), Ok(vec![0xAC]));
}

#[test]
fn type_two_record_scales_base_by_sixteen() {
    let input = String::from(":020000021000EC\n:01000000AA55");
    let buf = hex_to_buffer(&input).expect("well-formed image");
    assert_eq!(buf.len(), 0x10001);
    assert_eq!(buf[0], 0xFF);
    assert_eq!(buf[0x10000], 0xAA);
}

#[test]
fn type_four_record_shifts_base_sixteen_bits() {
    let input = String::from(":020000040001F9\n:01000000AA55");
    let buf = hex_to_buffer(&input).expect("well-formed image");
    assert_eq!(buf.len(), 0x10001);
    assert_eq!(buf[0x10000], 0xAA);
    assert!(buf[..0x10000].iter().all(|&b| b == 0xFF));
}

#[test]
fn malformed_digit_fails_whole_decode() {
    let input = String::from(":01000000AA55\n:0G000000AA55");
    assert_eq!(hex_to_buffer(&input), Err(StkError::ParseHexFileError));
}

#[test]
fn truncated_line_fails_whole_decode() {
    let input = String::from(":01000000AA55\n:0100");
    assert_eq!(hex_to_buffer(&input), Err(StkError::ParseHexFileError));
    // a data record cut short of its announced bytes fails too
    let short_data = String::from(":04000000AABB00");
    assert_eq!(hex_to_buffer(&short_data), Err(StkError::ParseHexFileError));
}

#[test]
fn empty_line_fails_decode() {
    let input = String::from(":01000000AA55\n\n:01000100BB00");
    assert_eq!(hex_to_buffer(&input), Err(StkError::ParseHexFileError));
}

#[test]
fn lowercase_digits_accepted() {
    let input = String::from(":02000000abcd00");
    assert_eq!(hex_to_buffer(&input), Ok(vec![0xAB, 0xCD]));
}

#[test]
fn carriage_returns_stripped() {
    let input = String::from(":01000000AA55\r\n:01000100BB40\r\n");
    assert_eq!(hex_to_buffer(&input), Ok(vec![0xAA, 0xBB]));
}

#[test]
fn later_record_overwrites_earlier() {
    let input = String::from(":01000000AA55\n:01000000BB44");
    assert_eq!(hex_to_buffer(&input), Ok(vec![0xBB]));
}

#[test]
fn ext_field_overflow_rejected() {
    // a type-2 value beyond 32 bits cannot be parsed
    let input = String::from(":05000002FFFFFFFFFF00");
    assert_eq!(hex_to_buffer(&input), Err(StkError::ParseHexFileError));
}

#[test]
fn unknown_record_types_skipped() {
    let input = String::from(":01000003AA00\n:01000000CC00");
    assert_eq!(hex_to_buffer(&input), Ok(vec![0xCC]));
}
