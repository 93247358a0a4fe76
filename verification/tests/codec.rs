//! Field codec behaviour: each primitive decoder reads its exact byte
//! span, advances the cursor by the bytes consumed, and reports typed
//! errors on truncated or malformed input.

use mail_indexer::errors::ErrorKind;
use mail_indexer::helpers::{
    parse_bool, parse_pubkey, parse_string, parse_u32, validate_remaining_bytes,
};

#[test]
fn test_parse_string() {
    let data = vec![
        0x05, 0x00, 0x00, 0x00, // length = 5
        0x48, 0x65, 0x6c, 0x6c, 0x6f, // "Hello"
    ];
    let mut offset = 0;
    let result = parse_string(&data, &mut offset).unwrap();
    assert_eq!(result, "Hello");
    assert_eq!(offset, 9);
}

#[test]
fn test_parse_u32() {
    let data = vec![0x2A, 0x00, 0x00, 0x00]; // 42 in little-endian
    let mut offset = 0;
    let result = parse_u32(&data, &mut offset).unwrap();
    assert_eq!(result, 42);
    assert_eq!(offset, 4);
}

#[test]
fn test_parse_bool() {
    let data = vec![0x01, 0x00];
    let mut offset = 0;

    let result1 = parse_bool(&data, &mut offset).unwrap();
    assert_eq!(result1, true);
    assert_eq!(offset, 1);

    let result2 = parse_bool(&data, &mut offset).unwrap();
    assert_eq!(result2, false);
    assert_eq!(offset, 2);
}

#[test]
fn parse_pubkey_reads_32_bytes() {
    let mut data = Vec::new();
    for i in 0..32u8 {
        data.push(i);
    }
    data.push(0xFF); // trailing byte, ignored
    let mut offset = 0;
    let key = parse_pubkey(&data, &mut offset).unwrap();
    assert_eq!(offset, 32);
    assert_eq!(key.bytes, (0..32u8).collect::<Vec<u8>>());
}

#[test]
fn parse_pubkey_missing_final_byte_is_truncated() {
    let data = vec![0u8; 31];
    let mut offset = 0;
    let e = parse_pubkey(&data, &mut offset).unwrap_err();
    assert_eq!(e.kind, ErrorKind::TruncatedInput);
    assert_eq!(offset, 0);
}

#[test]
fn parse_u32_missing_final_byte_is_truncated() {
    let data = vec![1u8, 2, 3];
    let mut offset = 0;
    let e = parse_u32(&data, &mut offset).unwrap_err();
    assert_eq!(e.kind, ErrorKind::TruncatedInput);
    assert_eq!(offset, 0);
}

#[test]
fn parse_bool_at_end_is_truncated() {
    let data = vec![7u8];
    let mut offset = 1;
    let e = parse_bool(&data, &mut offset).unwrap_err();
    assert_eq!(e.kind, ErrorKind::TruncatedInput);
}

#[test]
fn parse_bool_any_nonzero_is_true() {
    let data = vec![0xFFu8];
    let mut offset = 0;
    assert_eq!(parse_bool(&data, &mut offset).unwrap(), true);
}

#[test]
fn parse_string_truncated_length_field() {
    let data = vec![5u8, 0, 0]; // only 3 of the 4 length bytes
    let mut offset = 0;
    let e = parse_string(&data, &mut offset).unwrap_err();
    assert_eq!(e.kind, ErrorKind::TruncatedInput);
    assert_eq!(offset, 0);
}

#[test]
fn parse_string_missing_final_content_byte() {
    let mut data = vec![5u8, 0, 0, 0];
    data.extend_from_slice(b"test"); // 4 of the declared 5 bytes
    let mut offset = 0;
    let e = parse_string(&data, &mut offset).unwrap_err();
    assert_eq!(e.kind, ErrorKind::TruncatedInput);
}

#[test]
fn parse_string_invalid_utf8() {
    let data = vec![2u8, 0, 0, 0, 0xFF, 0xFE];
    let mut offset = 0;
    let e = parse_string(&data, &mut offset).unwrap_err();
    assert_eq!(e.kind, ErrorKind::InvalidEncoding);
}

#[test]
fn parse_string_empty_text() {
    let data = vec![0u8, 0, 0, 0];
    let mut offset = 0;
    let s = parse_string(&data, &mut offset).unwrap();
    assert_eq!(s, "");
    assert_eq!(offset, 4);
}

#[test]
fn parse_string_at_offset() {
    let mut data = vec![9u8, 9, 9]; // padding before the field
    data.extend_from_slice(&[2u8, 0, 0, 0]);
    data.extend_from_slice(b"ok");
    let mut offset = 3;
    let s = parse_string(&data, &mut offset).unwrap();
    assert_eq!(s, "ok");
    assert_eq!(offset, 9);
}

#[test]
fn validate_remaining_bytes_boundaries() {
    let data = vec![0u8; 8];
    assert!(validate_remaining_bytes(&data, 0, 8, "field").is_ok());
    assert!(validate_remaining_bytes(&data, 4, 4, "field").is_ok());
    let e = validate_remaining_bytes(&data, 4, 5, "field").unwrap_err();
    assert_eq!(e.kind, ErrorKind::TruncatedInput);
    assert!(validate_remaining_bytes(&data, 9, 0, "field").is_err());
}

#[test]
fn parse_string_multibyte_utf8() {
    // "héllo" is six bytes of UTF-8 for five characters.
    let content = "h\u{e9}llo".as_bytes();
    let mut data = (content.len() as u32).to_le_bytes().to_vec();
    data.extend_from_slice(content);
    let mut offset = 0;
    let s = parse_string(&data, &mut offset).unwrap();
    assert_eq!(s, "h\u{e9}llo");
    assert_eq!(s.chars().count(), 5);
    assert_eq!(offset, 4 + content.len());
}
