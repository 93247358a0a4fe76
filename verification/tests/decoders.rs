//! Round-trip decoding for every record type: a handcrafted buffer in
//! the declared field layout decodes to exactly the expected field
//! values; a buffer missing its final byte is rejected as truncated.

use mail_indexer::errors::ErrorKind;
use mail_indexer::events::{
    deserialize_mail_account_v2_register_event, deserialize_mail_account_v2_update_event,
    deserialize_mail_send_event, deserialize_mail_v2_read_event, deserialize_mail_v2_send_event,
    deserialize_mail_v2_update_event, deserialize_mail_v2_update_label_event,
};
use mail_indexer::instructions::{
    deserialize_createmail_instruction, deserialize_register_instruction,
    deserialize_register_v2_instruction, deserialize_sendmail_instruction,
    deserialize_update_account_v2_instruction, deserialize_updatemail_instruction,
    deserialize_updatemaillabel_instruction, deserialize_updatemailreadstatus_instruction,
};

fn key_bytes(fill: u8) -> Vec<u8> {
    vec![fill; 32]
}

fn text_bytes(s: &str) -> Vec<u8> {
    let mut v = (s.len() as u32).to_le_bytes().to_vec();
    v.extend_from_slice(s.as_bytes());
    v
}

#[test]
fn test_deserialize_mail_send_event() {
    // Create test data: 32 bytes (from) + 32 bytes (to) + 4 bytes (len) + string
    let mut data = vec![0u8; 64]; // 64 zero bytes for pubkeys
    data.extend_from_slice(&[5u8, 0, 0, 0]); // length = 5
    data.extend_from_slice(b"test1"); // id string

    let result = deserialize_mail_send_event(&data).unwrap();
    assert_eq!(result.id, "test1");
}

#[test]
fn test_deserialize_mail_v2_send_event() {
    // Create test data: 32 bytes (from) + 32 bytes (to) + 4 bytes (len) + string + 32 bytes (mailbox)
    let mut data = vec![0u8; 64]; // 64 zero bytes for from/to pubkeys
    data.extend_from_slice(&[5u8, 0, 0, 0]); // length = 5
    data.extend_from_slice(b"test2"); // id string
    data.extend_from_slice(&[0u8; 32]); // 32 zero bytes for mailbox pubkey

    let result = deserialize_mail_v2_send_event(&data).unwrap();
    assert_eq!(result.id, "test2");
}

#[test]
fn test_deserialize_createmail_instruction() {
    // Create minimal test data for createmail instruction
    let mut data = Vec::new();

    // Subject: "Test" (4 bytes length + 4 bytes string)
    data.extend_from_slice(&[4u8, 0, 0, 0]);
    data.extend_from_slice(b"Test");

    // From pubkey (32 bytes)
    data.extend_from_slice(&[0u8; 32]);

    // To pubkey (32 bytes)
    data.extend_from_slice(&[0u8; 32]);

    // Salt: "salt" (4 bytes length + 4 bytes string)
    data.extend_from_slice(&[4u8, 0, 0, 0]);
    data.extend_from_slice(b"salt");

    // IV: "iv" (4 bytes length + 2 bytes string)
    data.extend_from_slice(&[2u8, 0, 0, 0]);
    data.extend_from_slice(b"iv");

    // Version: "1.0" (4 bytes length + 3 bytes string)
    data.extend_from_slice(&[3u8, 0, 0, 0]);
    data.extend_from_slice(b"1.0");

    // Parent ID: "0" (4 bytes length + 1 byte string)
    data.extend_from_slice(&[1u8, 0, 0, 0]);
    data.extend_from_slice(b"0");

    let result = deserialize_createmail_instruction(&data).unwrap();
    assert_eq!(result.subject, "Test");
    assert_eq!(result.salt, "salt");
    assert_eq!(result.iv, "iv");
    assert_eq!(result.version, "1.0");
    assert_eq!(result.parent_id, "0");
}

#[test]
fn test_deserialize_updatemail_instruction() {
    let mut data = Vec::new();

    // Body: "Updated content" (4 bytes length + 15 bytes string)
    data.extend_from_slice(&[15u8, 0, 0, 0]);
    data.extend_from_slice(b"Updated content");

    let result = deserialize_updatemail_instruction(&data).unwrap();
    assert_eq!(result.body, "Updated content");
}

#[test]
fn test_deserialize_updatemailreadstatus_instruction() {
    let data = Vec::new(); // Empty data since this instruction has no fields
    let result = deserialize_updatemailreadstatus_instruction(&data);
    assert!(result.is_ok());
}

#[test]
fn test_deserialize_updatemaillabel_instruction() {
    let data = vec![2u8, 0, 0, 0]; // label = 2
    let result = deserialize_updatemaillabel_instruction(&data).unwrap();
    assert_eq!(result.label, 2);
}

#[test]
fn mail_send_event_round_trip_full() {
    let mut data = key_bytes(1);
    data.extend_from_slice(&key_bytes(2));
    data.extend_from_slice(&text_bytes("mail-7"));
    let r = deserialize_mail_send_event(&data).unwrap();
    assert_eq!(r.from.bytes, key_bytes(1));
    assert_eq!(r.to.bytes, key_bytes(2));
    assert_eq!(r.id, "mail-7");

    // missing the final byte of the last field
    let e = deserialize_mail_send_event(&data[..data.len() - 1]).unwrap_err();
    assert_eq!(e.kind, ErrorKind::TruncatedInput);
}

#[test]
fn mail_v2_send_event_round_trip_full() {
    let mut data = key_bytes(1);
    data.extend_from_slice(&key_bytes(2));
    data.extend_from_slice(&text_bytes("id9"));
    data.extend_from_slice(&key_bytes(3));
    let r = deserialize_mail_v2_send_event(&data).unwrap();
    assert_eq!(r.from.bytes, key_bytes(1));
    assert_eq!(r.to.bytes, key_bytes(2));
    assert_eq!(r.id, "id9");
    assert_eq!(r.mailbox.bytes, key_bytes(3));

    let e = deserialize_mail_v2_send_event(&data[..data.len() - 1]).unwrap_err();
    assert_eq!(e.kind, ErrorKind::TruncatedInput);
}

#[test]
fn mail_v2_update_event_round_trip_full() {
    let mut data = key_bytes(1);
    data.extend_from_slice(&key_bytes(2));
    data.extend_from_slice(&text_bytes("id1"));
    data.extend_from_slice(&key_bytes(3));
    data.extend_from_slice(&text_bytes("parent"));
    data.push(1); // mark_as_read = true
    data.extend_from_slice(&1700000000u32.to_le_bytes());
    data.extend_from_slice(&text_bytes("subject"));
    data.extend_from_slice(&text_bytes("body"));
    data.extend_from_slice(&key_bytes(4));
    data.extend_from_slice(&text_bytes("iv"));
    data.extend_from_slice(&text_bytes("salt"));
    data.extend_from_slice(&text_bytes("v1"));
    let r = deserialize_mail_v2_update_event(&data).unwrap();
    assert_eq!(r.from.bytes, key_bytes(1));
    assert_eq!(r.to.bytes, key_bytes(2));
    assert_eq!(r.id, "id1");
    assert_eq!(r.mailbox.bytes, key_bytes(3));
    assert_eq!(r.parent_id, "parent");
    assert_eq!(r.mark_as_read, true);
    assert_eq!(r.created_at, 1700000000);
    assert_eq!(r.subject, "subject");
    assert_eq!(r.body, "body");
    assert_eq!(r.authority.bytes, key_bytes(4));
    assert_eq!(r.iv, "iv");
    assert_eq!(r.salt, "salt");
    assert_eq!(r.version, "v1");

    let e = deserialize_mail_v2_update_event(&data[..data.len() - 1]).unwrap_err();
    assert_eq!(e.kind, ErrorKind::TruncatedInput);
}

#[test]
fn mail_v2_read_event_round_trip_full() {
    let mut data = text_bytes("read-me");
    data.extend_from_slice(&key_bytes(9));
    let r = deserialize_mail_v2_read_event(&data).unwrap();
    assert_eq!(r.id, "read-me");
    assert_eq!(r.owner.bytes, key_bytes(9));

    let e = deserialize_mail_v2_read_event(&data[..data.len() - 1]).unwrap_err();
    assert_eq!(e.kind, ErrorKind::TruncatedInput);
}

#[test]
fn mail_v2_update_label_event_round_trip_full() {
    let mut data = text_bytes("lbl");
    data.extend_from_slice(&key_bytes(8));
    let r = deserialize_mail_v2_update_label_event(&data).unwrap();
    assert_eq!(r.id, "lbl");
    assert_eq!(r.owner.bytes, key_bytes(8));

    let e = deserialize_mail_v2_update_label_event(&data[..data.len() - 1]).unwrap_err();
    assert_eq!(e.kind, ErrorKind::TruncatedInput);
}

#[test]
fn mail_account_v2_register_event_round_trip_full() {
    let mut data = key_bytes(5);
    data.extend_from_slice(&key_bytes(6));
    let r = deserialize_mail_account_v2_register_event(&data).unwrap();
    assert_eq!(r.owner.bytes, key_bytes(5));
    assert_eq!(r.account.bytes, key_bytes(6));

    let e = deserialize_mail_account_v2_register_event(&data[..data.len() - 1]).unwrap_err();
    assert_eq!(e.kind, ErrorKind::TruncatedInput);
}

#[test]
fn mail_account_v2_update_event_round_trip_full() {
    let mut data = key_bytes(5);
    data.extend_from_slice(&key_bytes(7));
    let r = deserialize_mail_account_v2_update_event(&data).unwrap();
    assert_eq!(r.owner.bytes, key_bytes(5));
    assert_eq!(r.account.bytes, key_bytes(7));

    let e = deserialize_mail_account_v2_update_event(&data[..data.len() - 1]).unwrap_err();
    assert_eq!(e.kind, ErrorKind::TruncatedInput);
}

#[test]
fn createmail_instruction_round_trip_full() {
    let mut data = text_bytes("subj");
    data.extend_from_slice(&key_bytes(1));
    data.extend_from_slice(&key_bytes(2));
    data.extend_from_slice(&text_bytes("salty"));
    data.extend_from_slice(&text_bytes("ivx"));
    data.extend_from_slice(&text_bytes("2.0"));
    data.extend_from_slice(&text_bytes("par"));
    let r = deserialize_createmail_instruction(&data).unwrap();
    assert_eq!(r.subject, "subj");
    assert_eq!(r.from.bytes, key_bytes(1));
    assert_eq!(r.to.bytes, key_bytes(2));
    assert_eq!(r.salt, "salty");
    assert_eq!(r.iv, "ivx");
    assert_eq!(r.version, "2.0");
    assert_eq!(r.parent_id, "par");

    let e = deserialize_createmail_instruction(&data[..data.len() - 1]).unwrap_err();
    assert_eq!(e.kind, ErrorKind::TruncatedInput);
}

#[test]
fn updatemail_instruction_truncated() {
    let data = text_bytes("body text");
    let e = deserialize_updatemail_instruction(&data[..data.len() - 1]).unwrap_err();
    assert_eq!(e.kind, ErrorKind::TruncatedInput);
}

#[test]
fn updatemaillabel_instruction_truncated() {
    let data = vec![2u8, 0, 0];
    let e = deserialize_updatemaillabel_instruction(&data).unwrap_err();
    assert_eq!(e.kind, ErrorKind::TruncatedInput);
}

#[test]
fn register_v2_instruction_round_trip_full() {
    let data = text_bytes("npub123");
    let r = deserialize_register_v2_instruction(&data).unwrap();
    assert_eq!(r.nostr_key, "npub123");

    let e = deserialize_register_v2_instruction(&data[..data.len() - 1]).unwrap_err();
    assert_eq!(e.kind, ErrorKind::TruncatedInput);
}

#[test]
fn update_account_v2_instruction_round_trip_full() {
    let mut data = text_bytes("npub9");
    data.extend_from_slice(&key_bytes(4));
    let r = deserialize_update_account_v2_instruction(&data).unwrap();
    assert_eq!(r.nostr_key, "npub9");
    assert_eq!(r.mailbox.bytes, key_bytes(4));

    let e = deserialize_update_account_v2_instruction(&data[..data.len() - 1]).unwrap_err();
    assert_eq!(e.kind, ErrorKind::TruncatedInput);
}

#[test]
fn sendmail_instruction_round_trip_full() {
    let mut data = text_bytes("s");
    data.extend_from_slice(&text_bytes("b"));
    data.extend_from_slice(&key_bytes(1));
    data.extend_from_slice(&key_bytes(2));
    data.extend_from_slice(&text_bytes("sa"));
    data.extend_from_slice(&text_bytes("iv"));
    data.extend_from_slice(&text_bytes("v"));
    let r = deserialize_sendmail_instruction(&data).unwrap();
    assert_eq!(r.subject, "s");
    assert_eq!(r.body, "b");
    assert_eq!(r.from.bytes, key_bytes(1));
    assert_eq!(r.to.bytes, key_bytes(2));
    assert_eq!(r.salt, "sa");
    assert_eq!(r.iv, "iv");
    assert_eq!(r.version, "v");

    let e = deserialize_sendmail_instruction(&data[..data.len() - 1]).unwrap_err();
    assert_eq!(e.kind, ErrorKind::TruncatedInput);
}

#[test]
fn register_instruction_round_trip_full() {
    let data = text_bytes("nkey");
    let r = deserialize_register_instruction(&data).unwrap();
    assert_eq!(r.nostr_key, "nkey");

    let e = deserialize_register_instruction(&data[..data.len() - 1]).unwrap_err();
    assert_eq!(e.kind, ErrorKind::TruncatedInput);
}

#[test]
fn decoders_tolerate_trailing_bytes() {
    let mut data = key_bytes(1);
    data.extend_from_slice(&key_bytes(2));
    data.extend_from_slice(&text_bytes("x"));
    data.extend_from_slice(&[0xAA, 0xBB, 0xCC]); // undeclared trailing data
    let r = deserialize_mail_send_event(&data).unwrap();
    assert_eq!(r.id, "x");
}
