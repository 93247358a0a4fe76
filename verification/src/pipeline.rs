//! The processing pipeline: scans each transaction's log payloads and
//! call instructions, dispatches every payload on its type tag, attaches
//! the transaction context — the transaction identifier and, for
//! instructions, the positional account list — and collects the assembled
//! records into one `Data` bundle.
//!
//! A missing positional account is filled with an empty placeholder
//! rather than failing the record: instructions called with fewer
//! accounts than canonically expected are tolerated on purpose.

use vstd::prelude::*;

use crate::dispatch::{
    dispatch_event, dispatch_instruction, spec_dispatch_event, spec_dispatch_instruction,
    EventRecord, EventRecordView, InstructionRecord, InstructionRecordView,
};
use crate::output::{
    lemma_data_concat_assoc, lemma_data_concat_empty, CreatemailInstruction,
    CreatemailInstructionView, Data, DataView, MailAccountV2RegisterEventEvent,
    MailAccountV2RegisterEventEventView, MailAccountV2UpdateEventEvent,
    MailAccountV2UpdateEventEventView, MailSendEventEvent, MailSendEventEventView,
    MailV2ReadEventEvent, MailV2ReadEventEventView, MailV2SendEventEvent,
    MailV2SendEventEventView, MailV2UpdateEventEvent, MailV2UpdateEventEventView,
    MailV2UpdateLabelEventEvent, MailV2UpdateLabelEventEventView, RegisterInstruction,
    RegisterInstructionView, RegisterV2Instruction, RegisterV2InstructionView,
    SendmailInstruction, SendmailInstructionView, UpdateAccountV2Instruction,
    UpdateAccountV2InstructionView, UpdatemailInstruction, UpdatemailInstructionView,
    UpdatemaillabelInstruction, UpdatemaillabelInstructionView, UpdatemailreadstatusInstruction,
    UpdatemailreadstatusInstructionView,
};
use crate::types::{
    base58_of, CreatemailView, MailAccountV2RegisterEventView, MailAccountV2UpdateEventView,
    MailSendEventView, MailV2ReadEventView, MailV2SendEventView, MailV2UpdateEventView,
    MailV2UpdateLabelEventView, RegisterV2View, RegisterView, SendmailView, UpdateAccountV2View,
    UpdatemailView, UpdatemaillabelView, UpdatemailreadstatusView,
};

verus! {

// ============================================================================
// Pipeline input: one transaction's worth of already-isolated payloads
// ============================================================================

/// One call instruction of a transaction: its raw data segment and the
/// ordered account identifiers it references, both already isolated by
/// the ledger-traversal boundary.
#[derive(Clone, Debug)]
pub struct InstructionInput {
    pub data: Vec<u8>,
    pub accounts: Vec<String>,
}

/// One transaction's inputs: its identifier, its base64-decoded log
/// payloads already filtered to the target program, and its call
/// instructions likewise filtered.
#[derive(Clone, Debug)]
pub struct TransactionInput {
    pub tx_id: String,
    pub log_payloads: Vec<Vec<u8>>,
    pub instructions: Vec<InstructionInput>,
}

// ============================================================================
// Specification: record assembly
// ============================================================================

/// The account at position `i`, or the empty placeholder when the
/// instruction was called with fewer accounts.
pub open spec fn spec_account(accounts: Seq<String>, i: int) -> Seq<char> {
    if 0 <= i < accounts.len() {
        accounts[i]@
    } else {
        Seq::empty()
    }
}

/// Attaches the transaction identifier to a decoded MailSendEvent record.
pub open spec fn spec_assemble_mail_send(tx_id: Seq<char>, v: MailSendEventView) -> MailSendEventEventView {
    MailSendEventEventView {
        trx_hash: tx_id,
        from: base58_of(v.from),
        to: base58_of(v.to),
        id: v.id,
    }
}

/// Attaches the transaction identifier to a decoded MailV2SendEvent record.
pub open spec fn spec_assemble_mail_v2_send(tx_id: Seq<char>, v: MailV2SendEventView) -> MailV2SendEventEventView {
    MailV2SendEventEventView {
        trx_hash: tx_id,
        from: base58_of(v.from),
        to: base58_of(v.to),
        id: v.id,
        mailbox: base58_of(v.mailbox),
    }
}

/// Attaches the transaction identifier to a decoded MailV2UpdateEvent record.
pub open spec fn spec_assemble_mail_v2_update(tx_id: Seq<char>, v: MailV2UpdateEventView) -> MailV2UpdateEventEventView {
    MailV2UpdateEventEventView {
        trx_hash: tx_id,
        from: base58_of(v.from),
        to: base58_of(v.to),
        id: v.id,
        mailbox: base58_of(v.mailbox),
        parent_id: v.parent_id,
        mark_as_read: v.mark_as_read,
        created_at: v.created_at,
        subject: v.subject,
        body: v.body,
        authority: base58_of(v.authority),
        iv: v.iv,
        salt: v.salt,
        version: v.version,
    }
}

/// Attaches the transaction identifier to a decoded MailV2ReadEvent record.
pub open spec fn spec_assemble_mail_v2_read(tx_id: Seq<char>, v: MailV2ReadEventView) -> MailV2ReadEventEventView {
    MailV2ReadEventEventView {
        trx_hash: tx_id,
        id: v.id,
        owner: base58_of(v.owner),
    }
}

/// Attaches the transaction identifier to a decoded MailV2UpdateLabelEvent record.
pub open spec fn spec_assemble_mail_v2_update_label(tx_id: Seq<char>, v: MailV2UpdateLabelEventView) -> MailV2UpdateLabelEventEventView {
    MailV2UpdateLabelEventEventView {
        trx_hash: tx_id,
        id: v.id,
        owner: base58_of(v.owner),
    }
}

/// Attaches the transaction identifier to a decoded MailAccountV2RegisterEvent record.
pub open spec fn spec_assemble_mail_account_v2_register(tx_id: Seq<char>, v: MailAccountV2RegisterEventView) -> MailAccountV2RegisterEventEventView {
    MailAccountV2RegisterEventEventView {
        trx_hash: tx_id,
        owner: base58_of(v.owner),
        account: base58_of(v.account),
    }
}

/// Attaches the transaction identifier to a decoded MailAccountV2UpdateEvent record.
pub open spec fn spec_assemble_mail_account_v2_update(tx_id: Seq<char>, v: MailAccountV2UpdateEventView) -> MailAccountV2UpdateEventEventView {
    MailAccountV2UpdateEventEventView {
        trx_hash: tx_id,
        owner: base58_of(v.owner),
        account: base58_of(v.account),
    }
}

/// Attaches the transaction identifier and the positional accounts to
/// a decoded Createmail record.
pub open spec fn spec_assemble_createmail(tx_id: Seq<char>, accounts: Seq<String>, v: CreatemailView) -> CreatemailInstructionView {
    CreatemailInstructionView {
        trx_hash: tx_id,
        subject: v.subject,
        from: base58_of(v.from),
        to: base58_of(v.to),
        salt: v.salt,
        iv: v.iv,
        version: v.version,
        parent_id: v.parent_id,
        acct_mail: spec_account(accounts, 0),
        acct_mail_account_v2: spec_account(accounts, 1),
        acct_authority: spec_account(accounts, 2),
        acct_system_program: spec_account(accounts, 3),
    }
}

/// Attaches the transaction identifier and the positional accounts to
/// a decoded Updatemail record.
pub open spec fn spec_assemble_updatemail(tx_id: Seq<char>, accounts: Seq<String>, v: UpdatemailView) -> UpdatemailInstructionView {
    UpdatemailInstructionView {
        trx_hash: tx_id,
        body: v.body,
        acct_mail: spec_account(accounts, 0),
        acct_authority: spec_account(accounts, 1),
        acct_system_program: spec_account(accounts, 2),
    }
}

/// Attaches the transaction identifier and the positional accounts to
/// a decoded Updatemailreadstatus record.
pub open spec fn spec_assemble_updatemailreadstatus(tx_id: Seq<char>, accounts: Seq<String>, v: UpdatemailreadstatusView) -> UpdatemailreadstatusInstructionView {
    UpdatemailreadstatusInstructionView {
        trx_hash: tx_id,
        acct_mail: spec_account(accounts, 0),
        acct_authority: spec_account(accounts, 1),
        acct_system_program: spec_account(accounts, 2),
    }
}

/// Attaches the transaction identifier and the positional accounts to
/// a decoded Updatemaillabel record.
pub open spec fn spec_assemble_updatemaillabel(tx_id: Seq<char>, accounts: Seq<String>, v: UpdatemaillabelView) -> UpdatemaillabelInstructionView {
    UpdatemaillabelInstructionView {
        trx_hash: tx_id,
        label: v.label as u64,
        acct_mail: spec_account(accounts, 0),
        acct_authority: spec_account(accounts, 1),
        acct_system_program: spec_account(accounts, 2),
    }
}

/// Attaches the transaction identifier and the positional accounts to
/// a decoded RegisterV2 record.
pub open spec fn spec_assemble_register_v2(tx_id: Seq<char>, accounts: Seq<String>, v: RegisterV2View) -> RegisterV2InstructionView {
    RegisterV2InstructionView {
        trx_hash: tx_id,
        nostr_key: v.nostr_key,
        acct_mail_account_v2: spec_account(accounts, 0),
        acct_authority: spec_account(accounts, 1),
        acct_system_program: spec_account(accounts, 2),
    }
}

/// Attaches the transaction identifier and the positional accounts to
/// a decoded UpdateAccountV2 record.
pub open spec fn spec_assemble_update_account_v2(tx_id: Seq<char>, accounts: Seq<String>, v: UpdateAccountV2View) -> UpdateAccountV2InstructionView {
    UpdateAccountV2InstructionView {
        trx_hash: tx_id,
        nostr_key: v.nostr_key,
        mailbox: base58_of(v.mailbox),
        acct_mail_account_v2: spec_account(accounts, 0),
        acct_authority: spec_account(accounts, 1),
    }
}

/// Attaches the transaction identifier and the positional accounts to
/// a decoded Sendmail record.
pub open spec fn spec_assemble_sendmail(tx_id: Seq<char>, accounts: Seq<String>, v: SendmailView) -> SendmailInstructionView {
    SendmailInstructionView {
        trx_hash: tx_id,
        subject: v.subject,
        body: v.body,
        from: base58_of(v.from),
        to: base58_of(v.to),
        salt: v.salt,
        iv: v.iv,
        version: v.version,
        acct_mail: spec_account(accounts, 0),
        acct_authority: spec_account(accounts, 1),
        acct_system_program: spec_account(accounts, 2),
    }
}

/// Attaches the transaction identifier and the positional accounts to
/// a decoded Register record.
pub open spec fn spec_assemble_register(tx_id: Seq<char>, accounts: Seq<String>, v: RegisterView) -> RegisterInstructionView {
    RegisterInstructionView {
        trx_hash: tx_id,
        nostr_key: v.nostr_key,
        acct_mail_account: spec_account(accounts, 0),
        acct_authority: spec_account(accounts, 1),
        acct_system_program: spec_account(accounts, 2),
    }
}

/// What one log payload contributes to the output: one assembled record
/// in the list of the type owning its tag, or nothing.
pub open spec fn spec_log_payload_data(tx_id: Seq<char>, payload: Seq<u8>) -> DataView {
    let sp = spec_dispatch_event(payload);
    DataView {
        mail_send_event_event_list: match sp {
            Some(EventRecordView::SendMail(v)) => seq![spec_assemble_mail_send(tx_id, v)],
            _ => Seq::empty(),
        },
        mail_v2_send_event_event_list: match sp {
            Some(EventRecordView::V2Send(v)) => seq![spec_assemble_mail_v2_send(tx_id, v)],
            _ => Seq::empty(),
        },
        mail_v2_update_event_event_list: match sp {
            Some(EventRecordView::V2Update(v)) => seq![spec_assemble_mail_v2_update(tx_id, v)],
            _ => Seq::empty(),
        },
        mail_v2_read_event_event_list: match sp {
            Some(EventRecordView::V2Read(v)) => seq![spec_assemble_mail_v2_read(tx_id, v)],
            _ => Seq::empty(),
        },
        mail_v2_update_label_event_event_list: match sp {
            Some(EventRecordView::V2UpdateLabel(v)) => seq![spec_assemble_mail_v2_update_label(tx_id, v)],
            _ => Seq::empty(),
        },
        mail_account_v2_register_event_event_list: match sp {
            Some(EventRecordView::AccountV2Register(v)) => seq![spec_assemble_mail_account_v2_register(tx_id, v)],
            _ => Seq::empty(),
        },
        mail_account_v2_update_event_event_list: match sp {
            Some(EventRecordView::AccountV2Update(v)) => seq![spec_assemble_mail_account_v2_update(tx_id, v)],
            _ => Seq::empty(),
        },
        createmail_instruction_list: Seq::empty(),
        updatemail_instruction_list: Seq::empty(),
        updatemailreadstatus_instruction_list: Seq::empty(),
        updatemaillabel_instruction_list: Seq::empty(),
        register_v2_instruction_list: Seq::empty(),
        update_account_v2_instruction_list: Seq::empty(),
        sendmail_instruction_list: Seq::empty(),
        register_instruction_list: Seq::empty(),
    }
}

/// What one call instruction contributes to the output: one assembled
/// record in the list of the type owning its tag, or nothing.
pub open spec fn spec_instruction_data(
    tx_id: Seq<char>,
    accounts: Seq<String>,
    payload: Seq<u8>,
) -> DataView {
    let sp = spec_dispatch_instruction(payload);
    DataView {
        mail_send_event_event_list: Seq::empty(),
        mail_v2_send_event_event_list: Seq::empty(),
        mail_v2_update_event_event_list: Seq::empty(),
        mail_v2_read_event_event_list: Seq::empty(),
        mail_v2_update_label_event_event_list: Seq::empty(),
        mail_account_v2_register_event_event_list: Seq::empty(),
        mail_account_v2_update_event_event_list: Seq::empty(),
        createmail_instruction_list: match sp {
            Some(InstructionRecordView::Createmail(v)) => seq![spec_assemble_createmail(tx_id, accounts, v)],
            _ => Seq::empty(),
        },
        updatemail_instruction_list: match sp {
            Some(InstructionRecordView::Updatemail(v)) => seq![spec_assemble_updatemail(tx_id, accounts, v)],
            _ => Seq::empty(),
        },
        updatemailreadstatus_instruction_list: match sp {
            Some(InstructionRecordView::Updatemailreadstatus(v)) => seq![spec_assemble_updatemailreadstatus(tx_id, accounts, v)],
            _ => Seq::empty(),
        },
        updatemaillabel_instruction_list: match sp {
            Some(InstructionRecordView::Updatemaillabel(v)) => seq![spec_assemble_updatemaillabel(tx_id, accounts, v)],
            _ => Seq::empty(),
        },
        register_v2_instruction_list: match sp {
            Some(InstructionRecordView::RegisterV2(v)) => seq![spec_assemble_register_v2(tx_id, accounts, v)],
            _ => Seq::empty(),
        },
        update_account_v2_instruction_list: match sp {
            Some(InstructionRecordView::UpdateAccountV2(v)) => seq![spec_assemble_update_account_v2(tx_id, accounts, v)],
            _ => Seq::empty(),
        },
        sendmail_instruction_list: match sp {
            Some(InstructionRecordView::Sendmail(v)) => seq![spec_assemble_sendmail(tx_id, accounts, v)],
            _ => Seq::empty(),
        },
        register_instruction_list: match sp {
            Some(InstructionRecordView::Register(v)) => seq![spec_assemble_register(tx_id, accounts, v)],
            _ => Seq::empty(),
        },
    }
}

/// What a transaction's log payloads contribute, in order.
pub open spec fn spec_tx_events_data(tx_id: Seq<char>, payloads: Seq<Vec<u8>>) -> DataView
    decreases payloads.len(),
{
    if payloads.len() == 0 {
        DataView::empty()
    } else {
        spec_tx_events_data(tx_id, payloads.drop_last()).concat(
            spec_log_payload_data(tx_id, payloads.last()@),
        )
    }
}

/// What a transaction's call instructions contribute, in order.
pub open spec fn spec_tx_instructions_data(
    tx_id: Seq<char>,
    instructions: Seq<InstructionInput>,
) -> DataView
    decreases instructions.len(),
{
    if instructions.len() == 0 {
        DataView::empty()
    } else {
        spec_tx_instructions_data(tx_id, instructions.drop_last()).concat(
            spec_instruction_data(
                tx_id,
                instructions.last().accounts@,
                instructions.last().data@,
            ),
        )
    }
}

/// What one transaction contributes: its log payloads' records, then its
/// instructions' records.
pub open spec fn spec_tx_data(tx: TransactionInput) -> DataView {
    spec_tx_events_data(tx.tx_id@, tx.log_payloads@).concat(
        spec_tx_instructions_data(tx.tx_id@, tx.instructions@),
    )
}

/// What a whole block's transactions produce, in order.  Processing is a
/// pure function of the input, so reprocessing the same transactions
/// always produces this same output.
pub open spec fn spec_data_of(transactions: Seq<TransactionInput>) -> DataView
    decreases transactions.len(),
{
    if transactions.len() == 0 {
        DataView::empty()
    } else {
        spec_data_of(transactions.drop_last()).concat(spec_tx_data(transactions.last()))
    }
}

// ============================================================================
// Executable pipeline
// ============================================================================

/// The account at position `i`, or the empty placeholder when the
/// instruction was called with fewer accounts.
pub fn account_or_empty(accounts: &Vec<String>, i: usize) -> (r: String)
    ensures
        r@ == spec_account(accounts@, i as int),
{
    if i < accounts.len() {
        accounts[i].clone()
    } else {
        String::new()
    }
}

/// Dispatches one log payload and, on a match, appends the assembled
/// record to its type's list.
pub fn process_log_payload(tx_id: &String, payload: &[u8], data: &mut Data)
    ensures
        final(data)@ == old(data)@.concat(spec_log_payload_data(tx_id@, payload@)),
{
    let ghost c = spec_log_payload_data(tx_id@, payload@);
    match dispatch_event(payload) {
        None => {
            proof {
                assert(data@ =~= old(data)@.concat(c));
            }
        },
        Some(EventRecord::SendMail(rec)) => {
            let row = MailSendEventEvent {
                trx_hash: tx_id.clone(),
                from: rec.from.to_base58(),
                to: rec.to.to_base58(),
                id: rec.id,
            };
            data.mail_send_event_event_list.push(row);
            proof {
                assert(data@ =~= old(data)@.concat(c));
            }
        },
        Some(EventRecord::V2Send(rec)) => {
            let row = MailV2SendEventEvent {
                trx_hash: tx_id.clone(),
                from: rec.from.to_base58(),
                to: rec.to.to_base58(),
                id: rec.id,
                mailbox: rec.mailbox.to_base58(),
            };
            data.mail_v2_send_event_event_list.push(row);
            proof {
                assert(data@ =~= old(data)@.concat(c));
            }
        },
        Some(EventRecord::V2Update(rec)) => {
            let row = MailV2UpdateEventEvent {
                trx_hash: tx_id.clone(),
                from: rec.from.to_base58(),
                to: rec.to.to_base58(),
                id: rec.id,
                mailbox: rec.mailbox.to_base58(),
                parent_id: rec.parent_id,
                mark_as_read: rec.mark_as_read,
                created_at: rec.created_at,
                subject: rec.subject,
                body: rec.body,
                authority: rec.authority.to_base58(),
                iv: rec.iv,
                salt: rec.salt,
                version: rec.version,
            };
            data.mail_v2_update_event_event_list.push(row);
            proof {
                assert(data@ =~= old(data)@.concat(c));
            }
        },
        Some(EventRecord::V2Read(rec)) => {
            let row = MailV2ReadEventEvent {
                trx_hash: tx_id.clone(),
                id: rec.id,
                owner: rec.owner.to_base58(),
            };
            data.mail_v2_read_event_event_list.push(row);
            proof {
                assert(data@ =~= old(data)@.concat(c));
            }
        },
        Some(EventRecord::V2UpdateLabel(rec)) => {
            let row = MailV2UpdateLabelEventEvent {
                trx_hash: tx_id.clone(),
                id: rec.id,
                owner: rec.owner.to_base58(),
            };
            data.mail_v2_update_label_event_event_list.push(row);
            proof {
                assert(data@ =~= old(data)@.concat(c));
            }
        },
        Some(EventRecord::AccountV2Register(rec)) => {
            let row = MailAccountV2RegisterEventEvent {
                trx_hash: tx_id.clone(),
                owner: rec.owner.to_base58(),
                account: rec.account.to_base58(),
            };
            data.mail_account_v2_register_event_event_list.push(row);
            proof {
                assert(data@ =~= old(data)@.concat(c));
            }
        },
        Some(EventRecord::AccountV2Update(rec)) => {
            let row = MailAccountV2UpdateEventEvent {
                trx_hash: tx_id.clone(),
                owner: rec.owner.to_base58(),
                account: rec.account.to_base58(),
            };
            data.mail_account_v2_update_event_event_list.push(row);
            proof {
                assert(data@ =~= old(data)@.concat(c));
            }
        },
    }
}

/// Dispatches one call instruction's data and, on a match, appends the
/// assembled record — transaction identifier and positional accounts
/// attached — to its type's list.
pub fn process_instruction(
    tx_id: &String,
    accounts: &Vec<String>,
    payload: &[u8],
    data: &mut Data,
)
    ensures
        final(data)@ == old(data)@.concat(
            spec_instruction_data(tx_id@, accounts@, payload@),
        ),
{
    let ghost c = spec_instruction_data(tx_id@, accounts@, payload@);
    match dispatch_instruction(payload) {
        None => {
            proof {
                assert(data@ =~= old(data)@.concat(c));
            }
        },
        Some(InstructionRecord::Createmail(rec)) => {
            let row = CreatemailInstruction {
                trx_hash: tx_id.clone(),
                subject: rec.subject,
                from: rec.from.to_base58(),
                to: rec.to.to_base58(),
                salt: rec.salt,
                iv: rec.iv,
                version: rec.version,
                parent_id: rec.parent_id,
                acct_mail: account_or_empty(accounts, 0),
                acct_mail_account_v2: account_or_empty(accounts, 1),
                acct_authority: account_or_empty(accounts, 2),
                acct_system_program: account_or_empty(accounts, 3),
            };
            data.createmail_instruction_list.push(row);
            proof {
                assert(data@ =~= old(data)@.concat(c));
            }
        },
        Some(InstructionRecord::Updatemail(rec)) => {
            let row = UpdatemailInstruction {
                trx_hash: tx_id.clone(),
                body: rec.body,
                acct_mail: account_or_empty(accounts, 0),
                acct_authority: account_or_empty(accounts, 1),
                acct_system_program: account_or_empty(accounts, 2),
            };
            data.updatemail_instruction_list.push(row);
            proof {
                assert(data@ =~= old(data)@.concat(c));
            }
        },
        Some(InstructionRecord::Updatemailreadstatus(rec)) => {
            let row = UpdatemailreadstatusInstruction {
                trx_hash: tx_id.clone(),
                acct_mail: account_or_empty(accounts, 0),
                acct_authority: account_or_empty(accounts, 1),
                acct_system_program: account_or_empty(accounts, 2),
            };
            data.updatemailreadstatus_instruction_list.push(row);
            proof {
                assert(data@ =~= old(data)@.concat(c));
            }
        },
        Some(InstructionRecord::Updatemaillabel(rec)) => {
            let row = UpdatemaillabelInstruction {
                trx_hash: tx_id.clone(),
                label: rec.label as u64,
                acct_mail: account_or_empty(accounts, 0),
                acct_authority: account_or_empty(accounts, 1),
                acct_system_program: account_or_empty(accounts, 2),
            };
            data.updatemaillabel_instruction_list.push(row);
            proof {
                assert(data@ =~= old(data)@.concat(c));
            }
        },
        Some(InstructionRecord::RegisterV2(rec)) => {
            let row = RegisterV2Instruction {
                trx_hash: tx_id.clone(),
                nostr_key: rec.nostr_key,
                acct_mail_account_v2: account_or_empty(accounts, 0),
                acct_authority: account_or_empty(accounts, 1),
                acct_system_program: account_or_empty(accounts, 2),
            };
            data.register_v2_instruction_list.push(row);
            proof {
                assert(data@ =~= old(data)@.concat(c));
            }
        },
        Some(InstructionRecord::UpdateAccountV2(rec)) => {
            let row = UpdateAccountV2Instruction {
                trx_hash: tx_id.clone(),
                nostr_key: rec.nostr_key,
                mailbox: rec.mailbox.to_base58(),
                acct_mail_account_v2: account_or_empty(accounts, 0),
                acct_authority: account_or_empty(accounts, 1),
            };
            data.update_account_v2_instruction_list.push(row);
            proof {
                assert(data@ =~= old(data)@.concat(c));
            }
        },
        Some(InstructionRecord::Sendmail(rec)) => {
            let row = SendmailInstruction {
                trx_hash: tx_id.clone(),
                subject: rec.subject,
                body: rec.body,
                from: rec.from.to_base58(),
                to: rec.to.to_base58(),
                salt: rec.salt,
                iv: rec.iv,
                version: rec.version,
                acct_mail: account_or_empty(accounts, 0),
                acct_authority: account_or_empty(accounts, 1),
                acct_system_program: account_or_empty(accounts, 2),
            };
            data.sendmail_instruction_list.push(row);
            proof {
                assert(data@ =~= old(data)@.concat(c));
            }
        },
        Some(InstructionRecord::Register(rec)) => {
            let row = RegisterInstruction {
                trx_hash: tx_id.clone(),
                nostr_key: rec.nostr_key,
                acct_mail_account: account_or_empty(accounts, 0),
                acct_authority: account_or_empty(accounts, 1),
                acct_system_program: account_or_empty(accounts, 2),
            };
            data.register_instruction_list.push(row);
            proof {
                assert(data@ =~= old(data)@.concat(c));
            }
        },
    }
}

/// Scans a transaction's log payloads in order, appending each decoded
/// event record to its list.  A payload that matches no tag or fails to
/// decode is skipped; it never affects the others.
pub fn process_transaction_events(transaction: &TransactionInput, data: &mut Data)
    ensures
        final(data)@ == old(data)@.concat(
            spec_tx_events_data(transaction.tx_id@, transaction.log_payloads@),
        ),
{
    let ghost ps = transaction.log_payloads@;
    let mut i: usize = 0;
    proof {
        assert(ps.take(0) =~= Seq::<Vec<u8>>::empty());
        lemma_data_concat_empty(old(data)@);
    }
    while i < transaction.log_payloads.len()
        invariant
            i <= ps.len(),
            ps == transaction.log_payloads@,
            data@ == old(data)@.concat(spec_tx_events_data(transaction.tx_id@, ps.take(i as int))),
        decreases ps.len() - i,
    {
        process_log_payload(&transaction.tx_id, transaction.log_payloads[i].as_slice(), data);
        proof {
            let taken = ps.take(i as int + 1);
            assert(taken.drop_last() =~= ps.take(i as int));
            assert(taken.last() == ps[i as int]);
            lemma_data_concat_assoc(
                old(data)@,
                spec_tx_events_data(transaction.tx_id@, ps.take(i as int)),
                spec_log_payload_data(transaction.tx_id@, ps[i as int]@),
            );
        }
        i = i + 1;
    }
    proof {
        assert(ps.take(ps.len() as int) =~= ps);
    }
}

/// Scans a transaction's call instructions in order, appending each
/// decoded instruction record to its list.  An instruction that matches
/// no tag or fails to decode is skipped; it never affects the others.
pub fn process_transaction_instructions(transaction: &TransactionInput, data: &mut Data)
    ensures
        final(data)@ == old(data)@.concat(
            spec_tx_instructions_data(transaction.tx_id@, transaction.instructions@),
        ),
{
    let ghost is_ = transaction.instructions@;
    let mut i: usize = 0;
    proof {
        assert(is_.take(0) =~= Seq::<InstructionInput>::empty());
        lemma_data_concat_empty(old(data)@);
    }
    while i < transaction.instructions.len()
        invariant
            i <= is_.len(),
            is_ == transaction.instructions@,
            data@ == old(data)@.concat(
                spec_tx_instructions_data(transaction.tx_id@, is_.take(i as int)),
            ),
        decreases is_.len() - i,
    {
        process_instruction(
            &transaction.tx_id,
            &transaction.instructions[i].accounts,
            transaction.instructions[i].data.as_slice(),
            data,
        );
        proof {
            let taken = is_.take(i as int + 1);
            assert(taken.drop_last() =~= is_.take(i as int));
            assert(taken.last() == is_[i as int]);
            lemma_data_concat_assoc(
                old(data)@,
                spec_tx_instructions_data(transaction.tx_id@, is_.take(i as int)),
                spec_instruction_data(
                    transaction.tx_id@,
                    is_[i as int].accounts@,
                    is_[i as int].data@,
                ),
            );
        }
        i = i + 1;
    }
    proof {
        assert(is_.take(is_.len() as int) =~= is_);
    }
}

/// Processes one block's worth of transactions: every log payload and
/// every call instruction of every transaction, in order, collected into
/// one output bundle.  A pure function of its input — processing the same
/// transactions twice produces the identical bundle — and each payload's
/// failure is isolated to that payload.
pub fn map_program_data(transactions: &Vec<TransactionInput>) -> (r: Data)
    ensures
        r@ == spec_data_of(transactions@),
{
    let ghost txs = transactions@;
    let mut data = Data::new();
    proof {
        assert(txs.take(0) =~= Seq::<TransactionInput>::empty());
    }
    let mut i: usize = 0;
    while i < transactions.len()
        invariant
            i <= txs.len(),
            txs == transactions@,
            data@ == spec_data_of(txs.take(i as int)),
        decreases txs.len() - i,
    {
        let ghost before = data@;
        let transaction = &transactions[i];
        process_transaction_events(transaction, &mut data);
        process_transaction_instructions(transaction, &mut data);
        proof {
            let taken = txs.take(i as int + 1);
            assert(taken.drop_last() =~= txs.take(i as int));
            assert(taken.last() == txs[i as int]);
            lemma_data_concat_assoc(
                before,
                spec_tx_events_data(txs[i as int].tx_id@, txs[i as int].log_payloads@),
                spec_tx_instructions_data(txs[i as int].tx_id@, txs[i as int].instructions@),
            );
        }
        i = i + 1;
    }
    proof {
        assert(txs.take(txs.len() as int) =~= txs);
    }
    data
}

} // verus!
