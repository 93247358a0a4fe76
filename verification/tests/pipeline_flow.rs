//! Whole-pipeline scenarios: payloads flow through dispatch, assembly
//! and row emission; missing positional accounts become empty
//! placeholders; reprocessing the same block yields byte-identical rows.

use mail_indexer::output::Data;
use mail_indexer::pipeline::{map_program_data, InstructionInput, TransactionInput};
use mail_indexer::rows::{db_out, map_enum_mail_label, DatabaseRow, MailLabel};

const MAIL_SEND_EVENT_TAG: [u8; 8] = [246, 25, 155, 65, 156, 90, 174, 160];
const UPDATEMAIL_TAG: [u8; 8] = [103, 89, 239, 89, 179, 196, 168, 188];
const CREATEMAIL_TAG: [u8; 8] = [79, 186, 79, 109, 12, 168, 250, 107];

const ZERO_KEY_BASE58: &str = "11111111111111111111111111111111";
const ONES_KEY_BASE58: &str = "4vJ9JU1bJJE96FWSJKvHsmmFADCg4gpZQff4P3bkLKi";

fn text_bytes(s: &str) -> Vec<u8> {
    let mut v = (s.len() as u32).to_le_bytes().to_vec();
    v.extend_from_slice(s.as_bytes());
    v
}

fn send_mail_payload(from_fill: u8, to_fill: u8, id: &str) -> Vec<u8> {
    let mut p = MAIL_SEND_EVENT_TAG.to_vec();
    p.extend_from_slice(&[from_fill; 32]);
    p.extend_from_slice(&[to_fill; 32]);
    p.extend_from_slice(&text_bytes(id));
    p
}

fn rows_equal(a: &[DatabaseRow], b: &[DatabaseRow]) -> bool {
    if a.len() != b.len() {
        return false;
    }
    for (x, y) in a.iter().zip(b.iter()) {
        if x.table != y.table || x.pk != y.pk || x.columns.len() != y.columns.len() {
            return false;
        }
        for (cx, cy) in x.columns.iter().zip(y.columns.iter()) {
            if cx.name != cy.name || cx.value != cy.value {
                return false;
            }
        }
    }
    true
}

#[test]
fn send_mail_event_example() {
    // A SendMail event payload [32 zero bytes][32 zero bytes][4-byte LE 5]["test1"].
    let tx = TransactionInput {
        tx_id: "tx1".to_string(),
        log_payloads: vec![send_mail_payload(0, 0, "test1")],
        instructions: vec![],
    };
    let data: Data = map_program_data(&vec![tx]);
    assert_eq!(data.mail_send_event_event_list.len(), 1);
    let e = &data.mail_send_event_event_list[0];
    assert_eq!(e.trx_hash, "tx1");
    assert_eq!(e.from, ZERO_KEY_BASE58);
    assert_eq!(e.to, ZERO_KEY_BASE58);
    assert_eq!(e.id, "test1");

    // Its derived key depends on (transaction id, from, to, id) and is
    // stable across repeated runs with the same transaction id.
    let rows = db_out(&data);
    assert_eq!(rows.len(), 1);
    let row = &rows[0];
    assert_eq!(row.table, "mail_send_event");
    assert_eq!(row.pk, "57efd494e8511ab088f22f4e6c72b9176621314e2a9232713d454428df80d452");
    assert_eq!(row.columns.len(), 4);
    assert_eq!(row.columns[0].name, "trx_hash");
    assert_eq!(row.columns[0].value, "tx1");
    assert_eq!(row.columns[1].name, "from_address");
    assert_eq!(row.columns[1].value, ZERO_KEY_BASE58);
    assert_eq!(row.columns[2].name, "to_address");
    assert_eq!(row.columns[2].value, ZERO_KEY_BASE58);
    assert_eq!(row.columns[3].name, "mail_id");
    assert_eq!(row.columns[3].value, "test1");
}

#[test]
fn nonzero_key_renders_in_base58() {
    let tx = TransactionInput {
        tx_id: "t".to_string(),
        log_payloads: vec![send_mail_payload(1, 0, "m")],
        instructions: vec![],
    };
    let data = map_program_data(&vec![tx]);
    assert_eq!(data.mail_send_event_event_list[0].from, ONES_KEY_BASE58);
}

#[test]
fn missing_positional_accounts_become_empty_placeholders() {
    let mut payload = UPDATEMAIL_TAG.to_vec();
    payload.extend_from_slice(&text_bytes("Updated content"));
    let tx = TransactionInput {
        tx_id: "tx2".to_string(),
        log_payloads: vec![],
        instructions: vec![InstructionInput {
            data: payload,
            accounts: vec!["acctA".to_string()], // fewer than the canonical three
        }],
    };
    let data = map_program_data(&vec![tx]);
    assert_eq!(data.updatemail_instruction_list.len(), 1);
    let i = &data.updatemail_instruction_list[0];
    assert_eq!(i.body, "Updated content");
    assert_eq!(i.acct_mail, "acctA");
    assert_eq!(i.acct_authority, "");
    assert_eq!(i.acct_system_program, "");

    let rows = db_out(&data);
    assert_eq!(rows[0].table, "updatemail_instruction");
    assert_eq!(rows[0].pk, "0cef8913db253b4b02b4993aaaaece0b986ae9f0df0eeebe8425b36e92e80b6e");
}

#[test]
fn createmail_accounts_fill_positionally() {
    let mut payload = CREATEMAIL_TAG.to_vec();
    payload.extend_from_slice(&text_bytes("s"));
    payload.extend_from_slice(&[0u8; 64]);
    payload.extend_from_slice(&text_bytes("sa"));
    payload.extend_from_slice(&text_bytes("iv"));
    payload.extend_from_slice(&text_bytes("v"));
    payload.extend_from_slice(&text_bytes("p"));
    let tx = TransactionInput {
        tx_id: "tx3".to_string(),
        log_payloads: vec![],
        instructions: vec![InstructionInput {
            data: payload,
            accounts: vec![
                "mailacct".to_string(),
                "acctv2".to_string(),
                "auth".to_string(),
                "system".to_string(),
            ],
        }],
    };
    let data = map_program_data(&vec![tx]);
    let i = &data.createmail_instruction_list[0];
    assert_eq!(i.acct_mail, "mailacct");
    assert_eq!(i.acct_mail_account_v2, "acctv2");
    assert_eq!(i.acct_authority, "auth");
    assert_eq!(i.acct_system_program, "system");
}

#[test]
fn malformed_payload_is_isolated() {
    // One malformed payload in a transaction affects neither the other
    // payloads of the same transaction nor a later transaction.
    let mut truncated = send_mail_payload(0, 0, "dropped");
    truncated.pop();
    let tx1 = TransactionInput {
        tx_id: "a".to_string(),
        log_payloads: vec![truncated, send_mail_payload(0, 0, "kept")],
        instructions: vec![],
    };
    let tx2 = TransactionInput {
        tx_id: "b".to_string(),
        log_payloads: vec![send_mail_payload(0, 0, "kept2")],
        instructions: vec![],
    };
    let data = map_program_data(&vec![tx1, tx2]);
    assert_eq!(data.mail_send_event_event_list.len(), 2);
    assert_eq!(data.mail_send_event_event_list[0].id, "kept");
    assert_eq!(data.mail_send_event_event_list[1].id, "kept2");
}

#[test]
fn three_records_processed_twice_give_identical_rows() {
    let mut instr_payload = UPDATEMAIL_TAG.to_vec();
    instr_payload.extend_from_slice(&text_bytes("body"));
    let make_block = || {
        vec![
            TransactionInput {
                tx_id: "t1".to_string(),
                log_payloads: vec![
                    send_mail_payload(0, 1, "m1"),
                    vec![9u8; 20], // foreign payload, ignored
                ],
                instructions: vec![InstructionInput {
                    data: instr_payload.clone(),
                    accounts: vec!["a".to_string(), "b".to_string(), "c".to_string()],
                }],
            },
            TransactionInput {
                tx_id: "t2".to_string(),
                log_payloads: vec![send_mail_payload(2, 3, "m2")],
                instructions: vec![],
            },
        ]
    };
    let rows1 = db_out(&map_program_data(&make_block()));
    let rows2 = db_out(&map_program_data(&make_block()));
    assert_eq!(rows1.len(), 3);
    assert!(rows_equal(&rows1, &rows2));
    // Events come first, then instructions, each in discovery order.
    assert_eq!(rows1[0].table, "mail_send_event");
    assert_eq!(rows1[1].table, "mail_send_event");
    assert_eq!(rows1[2].table, "updatemail_instruction");
}

#[test]
fn mail_label_codes() {
    assert_eq!(map_enum_mail_label(MailLabel::Outbox), 0);
    assert_eq!(map_enum_mail_label(MailLabel::Inbox), 1);
    assert_eq!(map_enum_mail_label(MailLabel::Read), 2);
    assert_eq!(map_enum_mail_label(MailLabel::Trash), 3);
    assert_eq!(map_enum_mail_label(MailLabel::Spam), 4);
}
