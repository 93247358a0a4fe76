//! Discriminator totality: each of the fifteen known tags routes a
//! payload to exactly the decoder owning it; an unknown tag, a short
//! payload, and a matched-but-malformed payload all yield no record.

use mail_indexer::dispatch::{dispatch_event, dispatch_instruction, EventRecord, InstructionRecord};

const MAIL_SEND_EVENT_TAG: [u8; 8] = [246, 25, 155, 65, 156, 90, 174, 160];
const MAIL_V2_SEND_EVENT_TAG: [u8; 8] = [57, 95, 119, 238, 197, 56, 38, 155];
const MAIL_V2_UPDATE_EVENT_TAG: [u8; 8] = [224, 123, 44, 76, 87, 109, 105, 110];
const MAIL_V2_READ_EVENT_TAG: [u8; 8] = [185, 241, 60, 172, 90, 110, 65, 90];
const MAIL_V2_UPDATE_LABEL_EVENT_TAG: [u8; 8] = [25, 155, 115, 145, 193, 110, 174, 83];
const MAIL_ACCOUNT_V2_REGISTER_EVENT_TAG: [u8; 8] = [250, 87, 69, 103, 135, 185, 177, 156];
const MAIL_ACCOUNT_V2_UPDATE_EVENT_TAG: [u8; 8] = [239, 63, 234, 251, 172, 161, 13, 162];
const CREATEMAIL_TAG: [u8; 8] = [79, 186, 79, 109, 12, 168, 250, 107];
const UPDATEMAIL_TAG: [u8; 8] = [103, 89, 239, 89, 179, 196, 168, 188];
const UPDATEMAILREADSTATUS_TAG: [u8; 8] = [22, 58, 187, 161, 225, 237, 130, 155];
const UPDATEMAILLABEL_TAG: [u8; 8] = [127, 96, 27, 207, 164, 210, 203, 16];
const REGISTER_V2_TAG: [u8; 8] = [225, 250, 193, 26, 37, 179, 205, 76];
const UPDATE_ACCOUNT_V2_TAG: [u8; 8] = [207, 128, 25, 128, 97, 131, 11, 255];
const SENDMAIL_TAG: [u8; 8] = [254, 11, 16, 48, 131, 123, 30, 181];
const REGISTER_TAG: [u8; 8] = [211, 124, 67, 15, 211, 194, 178, 240];

fn key_bytes(fill: u8) -> Vec<u8> {
    vec![fill; 32]
}

fn text_bytes(s: &str) -> Vec<u8> {
    let mut v = (s.len() as u32).to_le_bytes().to_vec();
    v.extend_from_slice(s.as_bytes());
    v
}

fn payload(tag: [u8; 8], body: &[u8]) -> Vec<u8> {
    let mut v = tag.to_vec();
    v.extend_from_slice(body);
    v
}

#[test]
fn event_tags_route_to_their_decoders() {
    let two_keys_text: Vec<u8> = {
        let mut b = key_bytes(1);
        b.extend_from_slice(&key_bytes(2));
        b.extend_from_slice(&text_bytes("id"));
        b
    };
    let r = dispatch_event(&payload(MAIL_SEND_EVENT_TAG, &two_keys_text)).unwrap();
    match r {
        EventRecord::SendMail(ev) => assert_eq!(ev.id, "id"),
        _ => panic!("wrong decoder"),
    }

    let mut b = two_keys_text.clone();
    b.extend_from_slice(&key_bytes(3));
    let r = dispatch_event(&payload(MAIL_V2_SEND_EVENT_TAG, &b)).unwrap();
    assert!(matches!(r, EventRecord::V2Send(_)));

    let mut b = key_bytes(1);
    b.extend_from_slice(&key_bytes(2));
    b.extend_from_slice(&text_bytes("id"));
    b.extend_from_slice(&key_bytes(3));
    b.extend_from_slice(&text_bytes("p"));
    b.push(0);
    b.extend_from_slice(&7u32.to_le_bytes());
    b.extend_from_slice(&text_bytes("s"));
    b.extend_from_slice(&text_bytes("b"));
    b.extend_from_slice(&key_bytes(4));
    b.extend_from_slice(&text_bytes("iv"));
    b.extend_from_slice(&text_bytes("sa"));
    b.extend_from_slice(&text_bytes("v"));
    let r = dispatch_event(&payload(MAIL_V2_UPDATE_EVENT_TAG, &b)).unwrap();
    assert!(matches!(r, EventRecord::V2Update(_)));

    let mut b = text_bytes("id");
    b.extend_from_slice(&key_bytes(1));
    let r = dispatch_event(&payload(MAIL_V2_READ_EVENT_TAG, &b)).unwrap();
    assert!(matches!(r, EventRecord::V2Read(_)));
    let r = dispatch_event(&payload(MAIL_V2_UPDATE_LABEL_EVENT_TAG, &b)).unwrap();
    assert!(matches!(r, EventRecord::V2UpdateLabel(_)));

    let mut b = key_bytes(1);
    b.extend_from_slice(&key_bytes(2));
    let r = dispatch_event(&payload(MAIL_ACCOUNT_V2_REGISTER_EVENT_TAG, &b)).unwrap();
    assert!(matches!(r, EventRecord::AccountV2Register(_)));
    let r = dispatch_event(&payload(MAIL_ACCOUNT_V2_UPDATE_EVENT_TAG, &b)).unwrap();
    assert!(matches!(r, EventRecord::AccountV2Update(_)));
}

#[test]
fn instruction_tags_route_to_their_decoders() {
    let mut b = text_bytes("subj");
    b.extend_from_slice(&key_bytes(1));
    b.extend_from_slice(&key_bytes(2));
    b.extend_from_slice(&text_bytes("sa"));
    b.extend_from_slice(&text_bytes("iv"));
    b.extend_from_slice(&text_bytes("v"));
    b.extend_from_slice(&text_bytes("p"));
    let r = dispatch_instruction(&payload(CREATEMAIL_TAG, &b)).unwrap();
    match r {
        InstructionRecord::Createmail(rec) => assert_eq!(rec.subject, "subj"),
        _ => panic!("wrong decoder"),
    }

    let r = dispatch_instruction(&payload(UPDATEMAIL_TAG, &text_bytes("body"))).unwrap();
    assert!(matches!(r, InstructionRecord::Updatemail(_)));

    let r = dispatch_instruction(&payload(UPDATEMAILREADSTATUS_TAG, &[])).unwrap();
    assert!(matches!(r, InstructionRecord::Updatemailreadstatus(_)));

    let r = dispatch_instruction(&payload(UPDATEMAILLABEL_TAG, &3u32.to_le_bytes())).unwrap();
    match r {
        InstructionRecord::Updatemaillabel(rec) => assert_eq!(rec.label, 3),
        _ => panic!("wrong decoder"),
    }

    let r = dispatch_instruction(&payload(REGISTER_V2_TAG, &text_bytes("nk"))).unwrap();
    assert!(matches!(r, InstructionRecord::RegisterV2(_)));

    let mut b = text_bytes("nk");
    b.extend_from_slice(&key_bytes(3));
    let r = dispatch_instruction(&payload(UPDATE_ACCOUNT_V2_TAG, &b)).unwrap();
    assert!(matches!(r, InstructionRecord::UpdateAccountV2(_)));

    let mut b = text_bytes("s");
    b.extend_from_slice(&text_bytes("b"));
    b.extend_from_slice(&key_bytes(1));
    b.extend_from_slice(&key_bytes(2));
    b.extend_from_slice(&text_bytes("sa"));
    b.extend_from_slice(&text_bytes("iv"));
    b.extend_from_slice(&text_bytes("v"));
    let r = dispatch_instruction(&payload(SENDMAIL_TAG, &b)).unwrap();
    assert!(matches!(r, InstructionRecord::Sendmail(_)));

    let r = dispatch_instruction(&payload(REGISTER_TAG, &text_bytes("nk"))).unwrap();
    assert!(matches!(r, InstructionRecord::Register(_)));
}

#[test]
fn unknown_tag_is_no_match() {
    let p = payload([9, 9, 9, 9, 9, 9, 9, 9], &key_bytes(0));
    assert!(dispatch_event(&p).is_none());
    assert!(dispatch_instruction(&p).is_none());
}

#[test]
fn event_tag_is_no_match_for_instructions_and_conversely() {
    // A log payload carrying an instruction tag is ignored, and the other
    // way around: the two dispatchers consult disjoint halves of the table.
    let mut b = text_bytes("body");
    let p = payload(UPDATEMAIL_TAG, &b);
    assert!(dispatch_event(&p).is_none());
    b = key_bytes(1);
    b.extend_from_slice(&key_bytes(2));
    b.extend_from_slice(&text_bytes("id"));
    let p = payload(MAIL_SEND_EVENT_TAG, &b);
    assert!(dispatch_instruction(&p).is_none());
}

#[test]
fn short_payload_is_no_match() {
    assert!(dispatch_event(&[1, 2, 3]).is_none());
    assert!(dispatch_instruction(&[]).is_none());
    assert!(dispatch_event(&MAIL_SEND_EVENT_TAG[..7]).is_none());
}

#[test]
fn matched_tag_with_malformed_body_is_no_match() {
    // The tag matches MailSendEvent but the body is one byte short.
    let mut b = key_bytes(1);
    b.extend_from_slice(&key_bytes(2));
    b.extend_from_slice(&text_bytes("id"));
    b.pop();
    assert!(dispatch_event(&payload(MAIL_SEND_EVENT_TAG, &b)).is_none());
}
