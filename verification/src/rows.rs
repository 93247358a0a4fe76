//! The row emitter: maps every assembled record, with its derived
//! primary key, onto a named-table, named-column row ready for an
//! idempotent upsert.  Each record type owns a fixed table name and a
//! fixed, exhaustive column set; the key material is a fixed per-type
//! subset of the fields (mutable free text such as a mail body is left
//! out of some types' key material).

use vstd::prelude::*;

use crate::keys::{
    bool_chars_of, bool_to_string, dec_chars_of, generate_event_pk, generate_instruction_pk,
    pk_of, u32_to_string, u64_to_string,
};
use crate::output::{
    CreatemailInstruction, CreatemailInstructionView, Data, DataView,
    MailAccountV2RegisterEventEvent, MailAccountV2RegisterEventEventView,
    MailAccountV2UpdateEventEvent, MailAccountV2UpdateEventEventView, MailSendEventEvent,
    MailSendEventEventView, MailV2ReadEventEvent, MailV2ReadEventEventView, MailV2SendEventEvent,
    MailV2SendEventEventView, MailV2UpdateEventEvent, MailV2UpdateEventEventView,
    MailV2UpdateLabelEventEvent, MailV2UpdateLabelEventEventView, RegisterInstruction,
    RegisterInstructionView, RegisterV2Instruction, RegisterV2InstructionView,
    SendmailInstruction, SendmailInstructionView, UpdateAccountV2Instruction,
    UpdateAccountV2InstructionView, UpdatemailInstruction, UpdatemailInstructionView,
    UpdatemaillabelInstruction, UpdatemaillabelInstructionView, UpdatemailreadstatusInstruction,
    UpdatemailreadstatusInstructionView,
};

verus! {

// ============================================================================
// The output row
// ============================================================================

#[verifier::ext_equal]
pub struct DbColumnView {
    pub name: Seq<char>,
    pub value: Seq<char>,
}

/// One named column of a row.
#[derive(Clone, Debug)]
pub struct DbColumn {
    pub name: String,
    pub value: String,
}

impl View for DbColumn {
    type V = DbColumnView;

    open spec fn view(&self) -> DbColumnView {
        DbColumnView { name: self.name@, value: self.value@ }
    }
}

#[verifier::ext_equal]
pub struct DatabaseRowView {
    pub table: Seq<char>,
    pub pk: Seq<char>,
    pub columns: Seq<DbColumnView>,
}

/// One storage-ready row: a fixed table name, the derived primary key,
/// and the ordered column values.  The key is a pure function of the
/// record's canonical fields, so the sink may treat (table, key) as an
/// idempotent upsert target.
#[derive(Clone, Debug)]
pub struct DatabaseRow {
    pub table: String,
    pub pk: String,
    pub columns: Vec<DbColumn>,
}

impl View for DatabaseRow {
    type V = DatabaseRowView;

    open spec fn view(&self) -> DatabaseRowView {
        DatabaseRowView {
            table: self.table@,
            pk: self.pk@,
            columns: self.columns@.map_values(|c: DbColumn| c@),
        }
    }
}

/// The views of a built row list, in order.
pub open spec fn row_views(rows: Seq<DatabaseRow>) -> Seq<DatabaseRowView>
    decreases rows.len(),
{
    if rows.len() == 0 {
        Seq::empty()
    } else {
        row_views(rows.drop_last()) + seq![rows.last()@]
    }
}

/// The row for a MailSendEventEvent record: table `mail_send_event`.
pub open spec fn spec_row_mail_send(e: MailSendEventEventView) -> DatabaseRowView {
    DatabaseRowView {
        table: "mail_send_event"@,
        pk: pk_of(seq![e.trx_hash, e.from, e.to, e.id]),
        columns: seq![
            DbColumnView { name: "trx_hash"@, value: e.trx_hash },
            DbColumnView { name: "from_address"@, value: e.from },
            DbColumnView { name: "to_address"@, value: e.to },
            DbColumnView { name: "mail_id"@, value: e.id },
        ],
    }
}

/// The row for a MailV2SendEventEvent record: table `mail_v2_send_event`.
pub open spec fn spec_row_mail_v2_send(e: MailV2SendEventEventView) -> DatabaseRowView {
    DatabaseRowView {
        table: "mail_v2_send_event"@,
        pk: pk_of(seq![e.trx_hash, e.from, e.to, e.id, e.mailbox]),
        columns: seq![
            DbColumnView { name: "trx_hash"@, value: e.trx_hash },
            DbColumnView { name: "from_address"@, value: e.from },
            DbColumnView { name: "to_address"@, value: e.to },
            DbColumnView { name: "mail_id"@, value: e.id },
            DbColumnView { name: "mailbox"@, value: e.mailbox },
        ],
    }
}

/// The row for a MailV2UpdateEventEvent record: table `mail_v2_update_event`.
pub open spec fn spec_row_mail_v2_update(e: MailV2UpdateEventEventView) -> DatabaseRowView {
    DatabaseRowView {
        table: "mail_v2_update_event"@,
        pk: pk_of(seq![e.trx_hash, e.from, e.to, e.id, e.mailbox, e.parent_id, bool_chars_of(e.mark_as_read), dec_chars_of(e.created_at as nat)]),
        columns: seq![
            DbColumnView { name: "trx_hash"@, value: e.trx_hash },
            DbColumnView { name: "from_address"@, value: e.from },
            DbColumnView { name: "to_address"@, value: e.to },
            DbColumnView { name: "mail_id"@, value: e.id },
            DbColumnView { name: "mailbox"@, value: e.mailbox },
            DbColumnView { name: "parent_id"@, value: e.parent_id },
            DbColumnView { name: "mark_as_read"@, value: bool_chars_of(e.mark_as_read) },
            DbColumnView { name: "created_at_timestamp"@, value: dec_chars_of(e.created_at as nat) },
            DbColumnView { name: "subject"@, value: e.subject },
            DbColumnView { name: "body"@, value: e.body },
            DbColumnView { name: "authority"@, value: e.authority },
            DbColumnView { name: "iv"@, value: e.iv },
            DbColumnView { name: "salt"@, value: e.salt },
            DbColumnView { name: "version"@, value: e.version },
        ],
    }
}

/// The row for a MailV2ReadEventEvent record: table `mail_v2_read_event`.
pub open spec fn spec_row_mail_v2_read(e: MailV2ReadEventEventView) -> DatabaseRowView {
    DatabaseRowView {
        table: "mail_v2_read_event"@,
        pk: pk_of(seq![e.trx_hash, e.id, e.owner]),
        columns: seq![
            DbColumnView { name: "trx_hash"@, value: e.trx_hash },
            DbColumnView { name: "mail_id"@, value: e.id },
            DbColumnView { name: "owner"@, value: e.owner },
        ],
    }
}

/// The row for a MailV2UpdateLabelEventEvent record: table `mail_v2_update_label_event`.
pub open spec fn spec_row_mail_v2_update_label(e: MailV2UpdateLabelEventEventView) -> DatabaseRowView {
    DatabaseRowView {
        table: "mail_v2_update_label_event"@,
        pk: pk_of(seq![e.trx_hash, e.id, e.owner]),
        columns: seq![
            DbColumnView { name: "trx_hash"@, value: e.trx_hash },
            DbColumnView { name: "mail_id"@, value: e.id },
            DbColumnView { name: "owner"@, value: e.owner },
        ],
    }
}

/// The row for a MailAccountV2RegisterEventEvent record: table `mail_account_v2_register_event`.
pub open spec fn spec_row_mail_account_v2_register(e: MailAccountV2RegisterEventEventView) -> DatabaseRowView {
    DatabaseRowView {
        table: "mail_account_v2_register_event"@,
        pk: pk_of(seq![e.trx_hash, e.owner, e.account]),
        columns: seq![
            DbColumnView { name: "trx_hash"@, value: e.trx_hash },
            DbColumnView { name: "owner"@, value: e.owner },
            DbColumnView { name: "account"@, value: e.account },
        ],
    }
}

/// The row for a MailAccountV2UpdateEventEvent record: table `mail_account_v2_update_event`.
pub open spec fn spec_row_mail_account_v2_update(e: MailAccountV2UpdateEventEventView) -> DatabaseRowView {
    DatabaseRowView {
        table: "mail_account_v2_update_event"@,
        pk: pk_of(seq![e.trx_hash, e.owner, e.account]),
        columns: seq![
            DbColumnView { name: "trx_hash"@, value: e.trx_hash },
            DbColumnView { name: "owner"@, value: e.owner },
            DbColumnView { name: "account"@, value: e.account },
        ],
    }
}

/// The row for a CreatemailInstruction record: table `createmail_instruction`.
pub open spec fn spec_row_createmail(e: CreatemailInstructionView) -> DatabaseRowView {
    DatabaseRowView {
        table: "createmail_instruction"@,
        pk: pk_of(seq![e.trx_hash, e.subject, e.from, e.to, e.salt, e.iv, e.version, e.parent_id]),
        columns: seq![
            DbColumnView { name: "trx_hash"@, value: e.trx_hash },
            DbColumnView { name: "subject"@, value: e.subject },
            DbColumnView { name: "from_address"@, value: e.from },
            DbColumnView { name: "to_address"@, value: e.to },
            DbColumnView { name: "salt"@, value: e.salt },
            DbColumnView { name: "iv"@, value: e.iv },
            DbColumnView { name: "version"@, value: e.version },
            DbColumnView { name: "parent_id"@, value: e.parent_id },
            DbColumnView { name: "acct_mail"@, value: e.acct_mail },
            DbColumnView { name: "acct_mail_account_v2"@, value: e.acct_mail_account_v2 },
            DbColumnView { name: "acct_authority"@, value: e.acct_authority },
            DbColumnView { name: "acct_system_program"@, value: e.acct_system_program },
        ],
    }
}

/// The row for a UpdatemailInstruction record: table `updatemail_instruction`.
pub open spec fn spec_row_updatemail(e: UpdatemailInstructionView) -> DatabaseRowView {
    DatabaseRowView {
        table: "updatemail_instruction"@,
        pk: pk_of(seq![e.trx_hash, e.body, e.acct_mail]),
        columns: seq![
            DbColumnView { name: "trx_hash"@, value: e.trx_hash },
            DbColumnView { name: "body"@, value: e.body },
            DbColumnView { name: "acct_mail"@, value: e.acct_mail },
            DbColumnView { name: "acct_authority"@, value: e.acct_authority },
            DbColumnView { name: "acct_system_program"@, value: e.acct_system_program },
        ],
    }
}

/// The row for a UpdatemailreadstatusInstruction record: table `updatemailreadstatus_instruction`.
pub open spec fn spec_row_updatemailreadstatus(e: UpdatemailreadstatusInstructionView) -> DatabaseRowView {
    DatabaseRowView {
        table: "updatemailreadstatus_instruction"@,
        pk: pk_of(seq![e.trx_hash, e.acct_mail]),
        columns: seq![
            DbColumnView { name: "trx_hash"@, value: e.trx_hash },
            DbColumnView { name: "acct_mail"@, value: e.acct_mail },
            DbColumnView { name: "acct_authority"@, value: e.acct_authority },
            DbColumnView { name: "acct_system_program"@, value: e.acct_system_program },
        ],
    }
}

/// The row for a UpdatemaillabelInstruction record: table `updatemaillabel_instruction`.
pub open spec fn spec_row_updatemaillabel(e: UpdatemaillabelInstructionView) -> DatabaseRowView {
    DatabaseRowView {
        table: "updatemaillabel_instruction"@,
        pk: pk_of(seq![e.trx_hash, dec_chars_of(e.label as nat), e.acct_mail]),
        columns: seq![
            DbColumnView { name: "trx_hash"@, value: e.trx_hash },
            DbColumnView { name: "label"@, value: dec_chars_of(e.label as nat) },
            DbColumnView { name: "acct_mail"@, value: e.acct_mail },
            DbColumnView { name: "acct_authority"@, value: e.acct_authority },
            DbColumnView { name: "acct_system_program"@, value: e.acct_system_program },
        ],
    }
}

/// The row for a RegisterV2Instruction record: table `register_v2_instruction`.
pub open spec fn spec_row_register_v2(e: RegisterV2InstructionView) -> DatabaseRowView {
    DatabaseRowView {
        table: "register_v2_instruction"@,
        pk: pk_of(seq![e.trx_hash, e.nostr_key]),
        columns: seq![
            DbColumnView { name: "trx_hash"@, value: e.trx_hash },
            DbColumnView { name: "nostr_key"@, value: e.nostr_key },
            DbColumnView { name: "acct_mail_account_v2"@, value: e.acct_mail_account_v2 },
            DbColumnView { name: "acct_authority"@, value: e.acct_authority },
            DbColumnView { name: "acct_system_program"@, value: e.acct_system_program },
        ],
    }
}

/// The row for a UpdateAccountV2Instruction record: table `update_account_v2_instruction`.
pub open spec fn spec_row_update_account_v2(e: UpdateAccountV2InstructionView) -> DatabaseRowView {
    DatabaseRowView {
        table: "update_account_v2_instruction"@,
        pk: pk_of(seq![e.trx_hash, e.nostr_key, e.mailbox]),
        columns: seq![
            DbColumnView { name: "trx_hash"@, value: e.trx_hash },
            DbColumnView { name: "nostr_key"@, value: e.nostr_key },
            DbColumnView { name: "mailbox"@, value: e.mailbox },
            DbColumnView { name: "acct_mail_account_v2"@, value: e.acct_mail_account_v2 },
            DbColumnView { name: "acct_authority"@, value: e.acct_authority },
        ],
    }
}

/// The row for a SendmailInstruction record: table `sendmail_instruction`.
pub open spec fn spec_row_sendmail(e: SendmailInstructionView) -> DatabaseRowView {
    DatabaseRowView {
        table: "sendmail_instruction"@,
        pk: pk_of(seq![e.trx_hash, e.subject, e.body, e.from, e.to, e.salt, e.iv, e.version]),
        columns: seq![
            DbColumnView { name: "trx_hash"@, value: e.trx_hash },
            DbColumnView { name: "subject"@, value: e.subject },
            DbColumnView { name: "body"@, value: e.body },
            DbColumnView { name: "from_address"@, value: e.from },
            DbColumnView { name: "to_address"@, value: e.to },
            DbColumnView { name: "salt"@, value: e.salt },
            DbColumnView { name: "iv"@, value: e.iv },
            DbColumnView { name: "version"@, value: e.version },
            DbColumnView { name: "acct_mail"@, value: e.acct_mail },
            DbColumnView { name: "acct_authority"@, value: e.acct_authority },
            DbColumnView { name: "acct_system_program"@, value: e.acct_system_program },
        ],
    }
}

/// The row for a RegisterInstruction record: table `register_instruction`.
pub open spec fn spec_row_register(e: RegisterInstructionView) -> DatabaseRowView {
    DatabaseRowView {
        table: "register_instruction"@,
        pk: pk_of(seq![e.trx_hash, e.nostr_key]),
        columns: seq![
            DbColumnView { name: "trx_hash"@, value: e.trx_hash },
            DbColumnView { name: "nostr_key"@, value: e.nostr_key },
            DbColumnView { name: "acct_mail_account"@, value: e.acct_mail_account },
            DbColumnView { name: "acct_authority"@, value: e.acct_authority },
            DbColumnView { name: "acct_system_program"@, value: e.acct_system_program },
        ],
    }
}

/// Builds the `mail_send_event` row for one record.
pub fn row_for_mail_send(e: &MailSendEventEvent) -> (r: DatabaseRow)
    ensures
        r@ == spec_row_mail_send(e@),
{
    let mut fields: Vec<String> = Vec::new();
    fields.push(e.trx_hash.clone());
    fields.push(e.from.clone());
    fields.push(e.to.clone());
    fields.push(e.id.clone());
    proof {
        assert(fields@.map_values(|s: String| s@) =~= seq![e@.trx_hash, e@.from, e@.to, e@.id]);
    }
    let pk = generate_event_pk(&fields);
    let mut columns: Vec<DbColumn> = Vec::new();
    columns.push(DbColumn { name: "trx_hash".to_owned(), value: e.trx_hash.clone() });
    columns.push(DbColumn { name: "from_address".to_owned(), value: e.from.clone() });
    columns.push(DbColumn { name: "to_address".to_owned(), value: e.to.clone() });
    columns.push(DbColumn { name: "mail_id".to_owned(), value: e.id.clone() });
    let r = DatabaseRow {
        table: "mail_send_event".to_owned(),
        pk,
        columns,
    };
    proof {
        assert(r@.columns =~= spec_row_mail_send(e@).columns);
        assert(r@ =~= spec_row_mail_send(e@));
    }
    r
}

/// Builds the `mail_v2_send_event` row for one record.
pub fn row_for_mail_v2_send(e: &MailV2SendEventEvent) -> (r: DatabaseRow)
    ensures
        r@ == spec_row_mail_v2_send(e@),
{
    let mut fields: Vec<String> = Vec::new();
    fields.push(e.trx_hash.clone());
    fields.push(e.from.clone());
    fields.push(e.to.clone());
    fields.push(e.id.clone());
    fields.push(e.mailbox.clone());
    proof {
        assert(fields@.map_values(|s: String| s@) =~= seq![e@.trx_hash, e@.from, e@.to, e@.id, e@.mailbox]);
    }
    let pk = generate_event_pk(&fields);
    let mut columns: Vec<DbColumn> = Vec::new();
    columns.push(DbColumn { name: "trx_hash".to_owned(), value: e.trx_hash.clone() });
    columns.push(DbColumn { name: "from_address".to_owned(), value: e.from.clone() });
    columns.push(DbColumn { name: "to_address".to_owned(), value: e.to.clone() });
    columns.push(DbColumn { name: "mail_id".to_owned(), value: e.id.clone() });
    columns.push(DbColumn { name: "mailbox".to_owned(), value: e.mailbox.clone() });
    let r = DatabaseRow {
        table: "mail_v2_send_event".to_owned(),
        pk,
        columns,
    };
    proof {
        assert(r@.columns =~= spec_row_mail_v2_send(e@).columns);
        assert(r@ =~= spec_row_mail_v2_send(e@));
    }
    r
}

/// Builds the `mail_v2_update_event` row for one record.
pub fn row_for_mail_v2_update(e: &MailV2UpdateEventEvent) -> (r: DatabaseRow)
    ensures
        r@ == spec_row_mail_v2_update(e@),
{
    let mut fields: Vec<String> = Vec::new();
    fields.push(e.trx_hash.clone());
    fields.push(e.from.clone());
    fields.push(e.to.clone());
    fields.push(e.id.clone());
    fields.push(e.mailbox.clone());
    fields.push(e.parent_id.clone());
    fields.push(bool_to_string(e.mark_as_read));
    fields.push(u32_to_string(e.created_at));
    proof {
        assert(fields@.map_values(|s: String| s@) =~= seq![e@.trx_hash, e@.from, e@.to, e@.id, e@.mailbox, e@.parent_id, bool_chars_of(e@.mark_as_read), dec_chars_of(e@.created_at as nat)]);
    }
    let pk = generate_event_pk(&fields);
    let mut columns: Vec<DbColumn> = Vec::new();
    columns.push(DbColumn { name: "trx_hash".to_owned(), value: e.trx_hash.clone() });
    columns.push(DbColumn { name: "from_address".to_owned(), value: e.from.clone() });
    columns.push(DbColumn { name: "to_address".to_owned(), value: e.to.clone() });
    columns.push(DbColumn { name: "mail_id".to_owned(), value: e.id.clone() });
    columns.push(DbColumn { name: "mailbox".to_owned(), value: e.mailbox.clone() });
    columns.push(DbColumn { name: "parent_id".to_owned(), value: e.parent_id.clone() });
    columns.push(DbColumn { name: "mark_as_read".to_owned(), value: bool_to_string(e.mark_as_read) });
    columns.push(DbColumn { name: "created_at_timestamp".to_owned(), value: u32_to_string(e.created_at) });
    columns.push(DbColumn { name: "subject".to_owned(), value: e.subject.clone() });
    columns.push(DbColumn { name: "body".to_owned(), value: e.body.clone() });
    columns.push(DbColumn { name: "authority".to_owned(), value: e.authority.clone() });
    columns.push(DbColumn { name: "iv".to_owned(), value: e.iv.clone() });
    columns.push(DbColumn { name: "salt".to_owned(), value: e.salt.clone() });
    columns.push(DbColumn { name: "version".to_owned(), value: e.version.clone() });
    let r = DatabaseRow {
        table: "mail_v2_update_event".to_owned(),
        pk,
        columns,
    };
    proof {
        assert(r@.columns =~= spec_row_mail_v2_update(e@).columns);
        assert(r@ =~= spec_row_mail_v2_update(e@));
    }
    r
}

/// Builds the `mail_v2_read_event` row for one record.
pub fn row_for_mail_v2_read(e: &MailV2ReadEventEvent) -> (r: DatabaseRow)
    ensures
        r@ == spec_row_mail_v2_read(e@),
{
    let mut fields: Vec<String> = Vec::new();
    fields.push(e.trx_hash.clone());
    fields.push(e.id.clone());
    fields.push(e.owner.clone());
    proof {
        assert(fields@.map_values(|s: String| s@) =~= seq![e@.trx_hash, e@.id, e@.owner]);
    }
    let pk = generate_event_pk(&fields);
    let mut columns: Vec<DbColumn> = Vec::new();
    columns.push(DbColumn { name: "trx_hash".to_owned(), value: e.trx_hash.clone() });
    columns.push(DbColumn { name: "mail_id".to_owned(), value: e.id.clone() });
    columns.push(DbColumn { name: "owner".to_owned(), value: e.owner.clone() });
    let r = DatabaseRow {
        table: "mail_v2_read_event".to_owned(),
        pk,
        columns,
    };
    proof {
        assert(r@.columns =~= spec_row_mail_v2_read(e@).columns);
        assert(r@ =~= spec_row_mail_v2_read(e@));
    }
    r
}

/// Builds the `mail_v2_update_label_event` row for one record.
pub fn row_for_mail_v2_update_label(e: &MailV2UpdateLabelEventEvent) -> (r: DatabaseRow)
    ensures
        r@ == spec_row_mail_v2_update_label(e@),
{
    let mut fields: Vec<String> = Vec::new();
    fields.push(e.trx_hash.clone());
    fields.push(e.id.clone());
    fields.push(e.owner.clone());
    proof {
        assert(fields@.map_values(|s: String| s@) =~= seq![e@.trx_hash, e@.id, e@.owner]);
    }
    let pk = generate_event_pk(&fields);
    let mut columns: Vec<DbColumn> = Vec::new();
    columns.push(DbColumn { name: "trx_hash".to_owned(), value: e.trx_hash.clone() });
    columns.push(DbColumn { name: "mail_id".to_owned(), value: e.id.clone() });
    columns.push(DbColumn { name: "owner".to_owned(), value: e.owner.clone() });
    let r = DatabaseRow {
        table: "mail_v2_update_label_event".to_owned(),
        pk,
        columns,
    };
    proof {
        assert(r@.columns =~= spec_row_mail_v2_update_label(e@).columns);
        assert(r@ =~= spec_row_mail_v2_update_label(e@));
    }
    r
}

/// Builds the `mail_account_v2_register_event` row for one record.
pub fn row_for_mail_account_v2_register(e: &MailAccountV2RegisterEventEvent) -> (r: DatabaseRow)
    ensures
        r@ == spec_row_mail_account_v2_register(e@),
{
    let mut fields: Vec<String> = Vec::new();
    fields.push(e.trx_hash.clone());
    fields.push(e.owner.clone());
    fields.push(e.account.clone());
    proof {
        assert(fields@.map_values(|s: String| s@) =~= seq![e@.trx_hash, e@.owner, e@.account]);
    }
    let pk = generate_event_pk(&fields);
    let mut columns: Vec<DbColumn> = Vec::new();
    columns.push(DbColumn { name: "trx_hash".to_owned(), value: e.trx_hash.clone() });
    columns.push(DbColumn { name: "owner".to_owned(), value: e.owner.clone() });
    columns.push(DbColumn { name: "account".to_owned(), value: e.account.clone() });
    let r = DatabaseRow {
        table: "mail_account_v2_register_event".to_owned(),
        pk,
        columns,
    };
    proof {
        assert(r@.columns =~= spec_row_mail_account_v2_register(e@).columns);
        assert(r@ =~= spec_row_mail_account_v2_register(e@));
    }
    r
}

/// Builds the `mail_account_v2_update_event` row for one record.
pub fn row_for_mail_account_v2_update(e: &MailAccountV2UpdateEventEvent) -> (r: DatabaseRow)
    ensures
        r@ == spec_row_mail_account_v2_update(e@),
{
    let mut fields: Vec<String> = Vec::new();
    fields.push(e.trx_hash.clone());
    fields.push(e.owner.clone());
    fields.push(e.account.clone());
    proof {
        assert(fields@.map_values(|s: String| s@) =~= seq![e@.trx_hash, e@.owner, e@.account]);
    }
    let pk = generate_event_pk(&fields);
    let mut columns: Vec<DbColumn> = Vec::new();
    columns.push(DbColumn { name: "trx_hash".to_owned(), value: e.trx_hash.clone() });
    columns.push(DbColumn { name: "owner".to_owned(), value: e.owner.clone() });
    columns.push(DbColumn { name: "account".to_owned(), value: e.account.clone() });
    let r = DatabaseRow {
        table: "mail_account_v2_update_event".to_owned(),
        pk,
        columns,
    };
    proof {
        assert(r@.columns =~= spec_row_mail_account_v2_update(e@).columns);
        assert(r@ =~= spec_row_mail_account_v2_update(e@));
    }
    r
}

/// Builds the `createmail_instruction` row for one record.
pub fn row_for_createmail(e: &CreatemailInstruction) -> (r: DatabaseRow)
    ensures
        r@ == spec_row_createmail(e@),
{
    let mut fields: Vec<String> = Vec::new();
    fields.push(e.trx_hash.clone());
    fields.push(e.subject.clone());
    fields.push(e.from.clone());
    fields.push(e.to.clone());
    fields.push(e.salt.clone());
    fields.push(e.iv.clone());
    fields.push(e.version.clone());
    fields.push(e.parent_id.clone());
    proof {
        assert(fields@.map_values(|s: String| s@) =~= seq![e@.trx_hash, e@.subject, e@.from, e@.to, e@.salt, e@.iv, e@.version, e@.parent_id]);
    }
    let pk = generate_instruction_pk(&fields);
    let mut columns: Vec<DbColumn> = Vec::new();
    columns.push(DbColumn { name: "trx_hash".to_owned(), value: e.trx_hash.clone() });
    columns.push(DbColumn { name: "subject".to_owned(), value: e.subject.clone() });
    columns.push(DbColumn { name: "from_address".to_owned(), value: e.from.clone() });
    columns.push(DbColumn { name: "to_address".to_owned(), value: e.to.clone() });
    columns.push(DbColumn { name: "salt".to_owned(), value: e.salt.clone() });
    columns.push(DbColumn { name: "iv".to_owned(), value: e.iv.clone() });
    columns.push(DbColumn { name: "version".to_owned(), value: e.version.clone() });
    columns.push(DbColumn { name: "parent_id".to_owned(), value: e.parent_id.clone() });
    columns.push(DbColumn { name: "acct_mail".to_owned(), value: e.acct_mail.clone() });
    columns.push(DbColumn { name: "acct_mail_account_v2".to_owned(), value: e.acct_mail_account_v2.clone() });
    columns.push(DbColumn { name: "acct_authority".to_owned(), value: e.acct_authority.clone() });
    columns.push(DbColumn { name: "acct_system_program".to_owned(), value: e.acct_system_program.clone() });
    let r = DatabaseRow {
        table: "createmail_instruction".to_owned(),
        pk,
        columns,
    };
    proof {
        assert(r@.columns =~= spec_row_createmail(e@).columns);
        assert(r@ =~= spec_row_createmail(e@));
    }
    r
}

/// Builds the `updatemail_instruction` row for one record.
pub fn row_for_updatemail(e: &UpdatemailInstruction) -> (r: DatabaseRow)
    ensures
        r@ == spec_row_updatemail(e@),
{
    let mut fields: Vec<String> = Vec::new();
    fields.push(e.trx_hash.clone());
    fields.push(e.body.clone());
    fields.push(e.acct_mail.clone());
    proof {
        assert(fields@.map_values(|s: String| s@) =~= seq![e@.trx_hash, e@.body, e@.acct_mail]);
    }
    let pk = generate_instruction_pk(&fields);
    let mut columns: Vec<DbColumn> = Vec::new();
    columns.push(DbColumn { name: "trx_hash".to_owned(), value: e.trx_hash.clone() });
    columns.push(DbColumn { name: "body".to_owned(), value: e.body.clone() });
    columns.push(DbColumn { name: "acct_mail".to_owned(), value: e.acct_mail.clone() });
    columns.push(DbColumn { name: "acct_authority".to_owned(), value: e.acct_authority.clone() });
    columns.push(DbColumn { name: "acct_system_program".to_owned(), value: e.acct_system_program.clone() });
    let r = DatabaseRow {
        table: "updatemail_instruction".to_owned(),
        pk,
        columns,
    };
    proof {
        assert(r@.columns =~= spec_row_updatemail(e@).columns);
        assert(r@ =~= spec_row_updatemail(e@));
    }
    r
}

/// Builds the `updatemailreadstatus_instruction` row for one record.
pub fn row_for_updatemailreadstatus(e: &UpdatemailreadstatusInstruction) -> (r: DatabaseRow)
    ensures
        r@ == spec_row_updatemailreadstatus(e@),
{
    let mut fields: Vec<String> = Vec::new();
    fields.push(e.trx_hash.clone());
    fields.push(e.acct_mail.clone());
    proof {
        assert(fields@.map_values(|s: String| s@) =~= seq![e@.trx_hash, e@.acct_mail]);
    }
    let pk = generate_instruction_pk(&fields);
    let mut columns: Vec<DbColumn> = Vec::new();
    columns.push(DbColumn { name: "trx_hash".to_owned(), value: e.trx_hash.clone() });
    columns.push(DbColumn { name: "acct_mail".to_owned(), value: e.acct_mail.clone() });
    columns.push(DbColumn { name: "acct_authority".to_owned(), value: e.acct_authority.clone() });
    columns.push(DbColumn { name: "acct_system_program".to_owned(), value: e.acct_system_program.clone() });
    let r = DatabaseRow {
        table: "updatemailreadstatus_instruction".to_owned(),
        pk,
        columns,
    };
    proof {
        assert(r@.columns =~= spec_row_updatemailreadstatus(e@).columns);
        assert(r@ =~= spec_row_updatemailreadstatus(e@));
    }
    r
}

/// Builds the `updatemaillabel_instruction` row for one record.
pub fn row_for_updatemaillabel(e: &UpdatemaillabelInstruction) -> (r: DatabaseRow)
    ensures
        r@ == spec_row_updatemaillabel(e@),
{
    let mut fields: Vec<String> = Vec::new();
    fields.push(e.trx_hash.clone());
    fields.push(u64_to_string(e.label));
    fields.push(e.acct_mail.clone());
    proof {
        assert(fields@.map_values(|s: String| s@) =~= seq![e@.trx_hash, dec_chars_of(e@.label as nat), e@.acct_mail]);
    }
    let pk = generate_instruction_pk(&fields);
    let mut columns: Vec<DbColumn> = Vec::new();
    columns.push(DbColumn { name: "trx_hash".to_owned(), value: e.trx_hash.clone() });
    columns.push(DbColumn { name: "label".to_owned(), value: u64_to_string(e.label) });
    columns.push(DbColumn { name: "acct_mail".to_owned(), value: e.acct_mail.clone() });
    columns.push(DbColumn { name: "acct_authority".to_owned(), value: e.acct_authority.clone() });
    columns.push(DbColumn { name: "acct_system_program".to_owned(), value: e.acct_system_program.clone() });
    let r = DatabaseRow {
        table: "updatemaillabel_instruction".to_owned(),
        pk,
        columns,
    };
    proof {
        assert(r@.columns =~= spec_row_updatemaillabel(e@).columns);
        assert(r@ =~= spec_row_updatemaillabel(e@));
    }
    r
}

/// Builds the `register_v2_instruction` row for one record.
pub fn row_for_register_v2(e: &RegisterV2Instruction) -> (r: DatabaseRow)
    ensures
        r@ == spec_row_register_v2(e@),
{
    let mut fields: Vec<String> = Vec::new();
    fields.push(e.trx_hash.clone());
    fields.push(e.nostr_key.clone());
    proof {
        assert(fields@.map_values(|s: String| s@) =~= seq![e@.trx_hash, e@.nostr_key]);
    }
    let pk = generate_instruction_pk(&fields);
    let mut columns: Vec<DbColumn> = Vec::new();
    columns.push(DbColumn { name: "trx_hash".to_owned(), value: e.trx_hash.clone() });
    columns.push(DbColumn { name: "nostr_key".to_owned(), value: e.nostr_key.clone() });
    columns.push(DbColumn { name: "acct_mail_account_v2".to_owned(), value: e.acct_mail_account_v2.clone() });
    columns.push(DbColumn { name: "acct_authority".to_owned(), value: e.acct_authority.clone() });
    columns.push(DbColumn { name: "acct_system_program".to_owned(), value: e.acct_system_program.clone() });
    let r = DatabaseRow {
        table: "register_v2_instruction".to_owned(),
        pk,
        columns,
    };
    proof {
        assert(r@.columns =~= spec_row_register_v2(e@).columns);
        assert(r@ =~= spec_row_register_v2(e@));
    }
    r
}

/// Builds the `update_account_v2_instruction` row for one record.
pub fn row_for_update_account_v2(e: &UpdateAccountV2Instruction) -> (r: DatabaseRow)
    ensures
        r@ == spec_row_update_account_v2(e@),
{
    let mut fields: Vec<String> = Vec::new();
    fields.push(e.trx_hash.clone());
    fields.push(e.nostr_key.clone());
    fields.push(e.mailbox.clone());
    proof {
        assert(fields@.map_values(|s: String| s@) =~= seq![e@.trx_hash, e@.nostr_key, e@.mailbox]);
    }
    let pk = generate_instruction_pk(&fields);
    let mut columns: Vec<DbColumn> = Vec::new();
    columns.push(DbColumn { name: "trx_hash".to_owned(), value: e.trx_hash.clone() });
    columns.push(DbColumn { name: "nostr_key".to_owned(), value: e.nostr_key.clone() });
    columns.push(DbColumn { name: "mailbox".to_owned(), value: e.mailbox.clone() });
    columns.push(DbColumn { name: "acct_mail_account_v2".to_owned(), value: e.acct_mail_account_v2.clone() });
    columns.push(DbColumn { name: "acct_authority".to_owned(), value: e.acct_authority.clone() });
    let r = DatabaseRow {
        table: "update_account_v2_instruction".to_owned(),
        pk,
        columns,
    };
    proof {
        assert(r@.columns =~= spec_row_update_account_v2(e@).columns);
        assert(r@ =~= spec_row_update_account_v2(e@));
    }
    r
}

/// Builds the `sendmail_instruction` row for one record.
pub fn row_for_sendmail(e: &SendmailInstruction) -> (r: DatabaseRow)
    ensures
        r@ == spec_row_sendmail(e@),
{
    let mut fields: Vec<String> = Vec::new();
    fields.push(e.trx_hash.clone());
    fields.push(e.subject.clone());
    fields.push(e.body.clone());
    fields.push(e.from.clone());
    fields.push(e.to.clone());
    fields.push(e.salt.clone());
    fields.push(e.iv.clone());
    fields.push(e.version.clone());
    proof {
        assert(fields@.map_values(|s: String| s@) =~= seq![e@.trx_hash, e@.subject, e@.body, e@.from, e@.to, e@.salt, e@.iv, e@.version]);
    }
    let pk = generate_instruction_pk(&fields);
    let mut columns: Vec<DbColumn> = Vec::new();
    columns.push(DbColumn { name: "trx_hash".to_owned(), value: e.trx_hash.clone() });
    columns.push(DbColumn { name: "subject".to_owned(), value: e.subject.clone() });
    columns.push(DbColumn { name: "body".to_owned(), value: e.body.clone() });
    columns.push(DbColumn { name: "from_address".to_owned(), value: e.from.clone() });
    columns.push(DbColumn { name: "to_address".to_owned(), value: e.to.clone() });
    columns.push(DbColumn { name: "salt".to_owned(), value: e.salt.clone() });
    columns.push(DbColumn { name: "iv".to_owned(), value: e.iv.clone() });
    columns.push(DbColumn { name: "version".to_owned(), value: e.version.clone() });
    columns.push(DbColumn { name: "acct_mail".to_owned(), value: e.acct_mail.clone() });
    columns.push(DbColumn { name: "acct_authority".to_owned(), value: e.acct_authority.clone() });
    columns.push(DbColumn { name: "acct_system_program".to_owned(), value: e.acct_system_program.clone() });
    let r = DatabaseRow {
        table: "sendmail_instruction".to_owned(),
        pk,
        columns,
    };
    proof {
        assert(r@.columns =~= spec_row_sendmail(e@).columns);
        assert(r@ =~= spec_row_sendmail(e@));
    }
    r
}

/// Builds the `register_instruction` row for one record.
pub fn row_for_register(e: &RegisterInstruction) -> (r: DatabaseRow)
    ensures
        r@ == spec_row_register(e@),
{
    let mut fields: Vec<String> = Vec::new();
    fields.push(e.trx_hash.clone());
    fields.push(e.nostr_key.clone());
    proof {
        assert(fields@.map_values(|s: String| s@) =~= seq![e@.trx_hash, e@.nostr_key]);
    }
    let pk = generate_instruction_pk(&fields);
    let mut columns: Vec<DbColumn> = Vec::new();
    columns.push(DbColumn { name: "trx_hash".to_owned(), value: e.trx_hash.clone() });
    columns.push(DbColumn { name: "nostr_key".to_owned(), value: e.nostr_key.clone() });
    columns.push(DbColumn { name: "acct_mail_account".to_owned(), value: e.acct_mail_account.clone() });
    columns.push(DbColumn { name: "acct_authority".to_owned(), value: e.acct_authority.clone() });
    columns.push(DbColumn { name: "acct_system_program".to_owned(), value: e.acct_system_program.clone() });
    let r = DatabaseRow {
        table: "register_instruction".to_owned(),
        pk,
        columns,
    };
    proof {
        assert(r@.columns =~= spec_row_register(e@).columns);
        assert(r@ =~= spec_row_register(e@));
    }
    r
}

/// The rows of a whole `mail_send_event` list, in order.
pub open spec fn spec_rows_mail_send_list(s: Seq<MailSendEventEventView>) -> Seq<DatabaseRowView>
    decreases s.len(),
{
    if s.len() == 0 {
        Seq::empty()
    } else {
        spec_rows_mail_send_list(s.drop_last()) + seq![spec_row_mail_send(s.last())]
    }
}

/// The rows of a whole `mail_v2_send_event` list, in order.
pub open spec fn spec_rows_mail_v2_send_list(s: Seq<MailV2SendEventEventView>) -> Seq<DatabaseRowView>
    decreases s.len(),
{
    if s.len() == 0 {
        Seq::empty()
    } else {
        spec_rows_mail_v2_send_list(s.drop_last()) + seq![spec_row_mail_v2_send(s.last())]
    }
}

/// The rows of a whole `mail_v2_update_event` list, in order.
pub open spec fn spec_rows_mail_v2_update_list(s: Seq<MailV2UpdateEventEventView>) -> Seq<DatabaseRowView>
    decreases s.len(),
{
    if s.len() == 0 {
        Seq::empty()
    } else {
        spec_rows_mail_v2_update_list(s.drop_last()) + seq![spec_row_mail_v2_update(s.last())]
    }
}

/// The rows of a whole `mail_v2_read_event` list, in order.
pub open spec fn spec_rows_mail_v2_read_list(s: Seq<MailV2ReadEventEventView>) -> Seq<DatabaseRowView>
    decreases s.len(),
{
    if s.len() == 0 {
        Seq::empty()
    } else {
        spec_rows_mail_v2_read_list(s.drop_last()) + seq![spec_row_mail_v2_read(s.last())]
    }
}

/// The rows of a whole `mail_v2_update_label_event` list, in order.
pub open spec fn spec_rows_mail_v2_update_label_list(s: Seq<MailV2UpdateLabelEventEventView>) -> Seq<DatabaseRowView>
    decreases s.len(),
{
    if s.len() == 0 {
        Seq::empty()
    } else {
        spec_rows_mail_v2_update_label_list(s.drop_last()) + seq![spec_row_mail_v2_update_label(s.last())]
    }
}

/// The rows of a whole `mail_account_v2_register_event` list, in order.
pub open spec fn spec_rows_mail_account_v2_register_list(s: Seq<MailAccountV2RegisterEventEventView>) -> Seq<DatabaseRowView>
    decreases s.len(),
{
    if s.len() == 0 {
        Seq::empty()
    } else {
        spec_rows_mail_account_v2_register_list(s.drop_last()) + seq![spec_row_mail_account_v2_register(s.last())]
    }
}

/// The rows of a whole `mail_account_v2_update_event` list, in order.
pub open spec fn spec_rows_mail_account_v2_update_list(s: Seq<MailAccountV2UpdateEventEventView>) -> Seq<DatabaseRowView>
    decreases s.len(),
{
    if s.len() == 0 {
        Seq::empty()
    } else {
        spec_rows_mail_account_v2_update_list(s.drop_last()) + seq![spec_row_mail_account_v2_update(s.last())]
    }
}

/// The rows of a whole `createmail_instruction` list, in order.
pub open spec fn spec_rows_createmail_list(s: Seq<CreatemailInstructionView>) -> Seq<DatabaseRowView>
    decreases s.len(),
{
    if s.len() == 0 {
        Seq::empty()
    } else {
        spec_rows_createmail_list(s.drop_last()) + seq![spec_row_createmail(s.last())]
    }
}

/// The rows of a whole `updatemail_instruction` list, in order.
pub open spec fn spec_rows_updatemail_list(s: Seq<UpdatemailInstructionView>) -> Seq<DatabaseRowView>
    decreases s.len(),
{
    if s.len() == 0 {
        Seq::empty()
    } else {
        spec_rows_updatemail_list(s.drop_last()) + seq![spec_row_updatemail(s.last())]
    }
}

/// The rows of a whole `updatemailreadstatus_instruction` list, in order.
pub open spec fn spec_rows_updatemailreadstatus_list(s: Seq<UpdatemailreadstatusInstructionView>) -> Seq<DatabaseRowView>
    decreases s.len(),
{
    if s.len() == 0 {
        Seq::empty()
    } else {
        spec_rows_updatemailreadstatus_list(s.drop_last()) + seq![spec_row_updatemailreadstatus(s.last())]
    }
}

/// The rows of a whole `updatemaillabel_instruction` list, in order.
pub open spec fn spec_rows_updatemaillabel_list(s: Seq<UpdatemaillabelInstructionView>) -> Seq<DatabaseRowView>
    decreases s.len(),
{
    if s.len() == 0 {
        Seq::empty()
    } else {
        spec_rows_updatemaillabel_list(s.drop_last()) + seq![spec_row_updatemaillabel(s.last())]
    }
}

/// The rows of a whole `register_v2_instruction` list, in order.
pub open spec fn spec_rows_register_v2_list(s: Seq<RegisterV2InstructionView>) -> Seq<DatabaseRowView>
    decreases s.len(),
{
    if s.len() == 0 {
        Seq::empty()
    } else {
        spec_rows_register_v2_list(s.drop_last()) + seq![spec_row_register_v2(s.last())]
    }
}

/// The rows of a whole `update_account_v2_instruction` list, in order.
pub open spec fn spec_rows_update_account_v2_list(s: Seq<UpdateAccountV2InstructionView>) -> Seq<DatabaseRowView>
    decreases s.len(),
{
    if s.len() == 0 {
        Seq::empty()
    } else {
        spec_rows_update_account_v2_list(s.drop_last()) + seq![spec_row_update_account_v2(s.last())]
    }
}

/// The rows of a whole `sendmail_instruction` list, in order.
pub open spec fn spec_rows_sendmail_list(s: Seq<SendmailInstructionView>) -> Seq<DatabaseRowView>
    decreases s.len(),
{
    if s.len() == 0 {
        Seq::empty()
    } else {
        spec_rows_sendmail_list(s.drop_last()) + seq![spec_row_sendmail(s.last())]
    }
}

/// The rows of a whole `register_instruction` list, in order.
pub open spec fn spec_rows_register_list(s: Seq<RegisterInstructionView>) -> Seq<DatabaseRowView>
    decreases s.len(),
{
    if s.len() == 0 {
        Seq::empty()
    } else {
        spec_rows_register_list(s.drop_last()) + seq![spec_row_register(s.last())]
    }
}

/// Every row a processing pass's output maps to: the seven event lists
/// in order, then the eight instruction lists in order.
pub open spec fn spec_db_rows(d: DataView) -> Seq<DatabaseRowView> {
    spec_rows_mail_send_list(d.mail_send_event_event_list) + spec_rows_mail_v2_send_list(d.mail_v2_send_event_event_list) + spec_rows_mail_v2_update_list(d.mail_v2_update_event_event_list) + spec_rows_mail_v2_read_list(d.mail_v2_read_event_event_list) + spec_rows_mail_v2_update_label_list(d.mail_v2_update_label_event_event_list) + spec_rows_mail_account_v2_register_list(d.mail_account_v2_register_event_event_list) + spec_rows_mail_account_v2_update_list(d.mail_account_v2_update_event_event_list) + spec_rows_createmail_list(d.createmail_instruction_list) + spec_rows_updatemail_list(d.updatemail_instruction_list) + spec_rows_updatemailreadstatus_list(d.updatemailreadstatus_instruction_list) + spec_rows_updatemaillabel_list(d.updatemaillabel_instruction_list) + spec_rows_register_v2_list(d.register_v2_instruction_list) + spec_rows_update_account_v2_list(d.update_account_v2_instruction_list) + spec_rows_sendmail_list(d.sendmail_instruction_list) + spec_rows_register_list(d.register_instruction_list)
}

fn append_mail_send_rows(data: &Data, rows: &mut Vec<DatabaseRow>)
    ensures
        row_views(final(rows)@) == row_views(old(rows)@) + spec_rows_mail_send_list(
            data@.mail_send_event_event_list,
        ),
{
    let ghost l = data@.mail_send_event_event_list;
    let mut i: usize = 0;
    while i < data.mail_send_event_event_list.len()
        invariant
            i <= l.len(),
            l == data@.mail_send_event_event_list,
            row_views(rows@) == row_views(old(rows)@) + spec_rows_mail_send_list(l.take(i as int)),
        decreases l.len() - i,
    {
        let row = row_for_mail_send(&data.mail_send_event_event_list[i]);
        let ghost rb = rows@;
        rows.push(row);
        proof {
            let t = l.take(i as int + 1);
            assert(t.drop_last() =~= l.take(i as int));
            assert(t.last() == l[i as int]);
            assert(rows@.drop_last() =~= rb);
            assert(rows@.last() == row);
            assert(l[i as int] == data.mail_send_event_event_list@[i as int]@);
            assert(row_views(rows@) =~= row_views(old(rows)@) + spec_rows_mail_send_list(t));
        }
        i = i + 1;
    }
    proof {
        assert(l.take(l.len() as int) =~= l);
    }
}

fn append_mail_v2_send_rows(data: &Data, rows: &mut Vec<DatabaseRow>)
    ensures
        row_views(final(rows)@) == row_views(old(rows)@) + spec_rows_mail_v2_send_list(
            data@.mail_v2_send_event_event_list,
        ),
{
    let ghost l = data@.mail_v2_send_event_event_list;
    let mut i: usize = 0;
    while i < data.mail_v2_send_event_event_list.len()
        invariant
            i <= l.len(),
            l == data@.mail_v2_send_event_event_list,
            row_views(rows@) == row_views(old(rows)@) + spec_rows_mail_v2_send_list(l.take(i as int)),
        decreases l.len() - i,
    {
        let row = row_for_mail_v2_send(&data.mail_v2_send_event_event_list[i]);
        let ghost rb = rows@;
        rows.push(row);
        proof {
            let t = l.take(i as int + 1);
            assert(t.drop_last() =~= l.take(i as int));
            assert(t.last() == l[i as int]);
            assert(rows@.drop_last() =~= rb);
            assert(rows@.last() == row);
            assert(l[i as int] == data.mail_v2_send_event_event_list@[i as int]@);
            assert(row_views(rows@) =~= row_views(old(rows)@) + spec_rows_mail_v2_send_list(t));
        }
        i = i + 1;
    }
    proof {
        assert(l.take(l.len() as int) =~= l);
    }
}

fn append_mail_v2_update_rows(data: &Data, rows: &mut Vec<DatabaseRow>)
    ensures
        row_views(final(rows)@) == row_views(old(rows)@) + spec_rows_mail_v2_update_list(
            data@.mail_v2_update_event_event_list,
        ),
{
    let ghost l = data@.mail_v2_update_event_event_list;
    let mut i: usize = 0;
    while i < data.mail_v2_update_event_event_list.len()
        invariant
            i <= l.len(),
            l == data@.mail_v2_update_event_event_list,
            row_views(rows@) == row_views(old(rows)@) + spec_rows_mail_v2_update_list(l.take(i as int)),
        decreases l.len() - i,
    {
        let row = row_for_mail_v2_update(&data.mail_v2_update_event_event_list[i]);
        let ghost rb = rows@;
        rows.push(row);
        proof {
            let t = l.take(i as int + 1);
            assert(t.drop_last() =~= l.take(i as int));
            assert(t.last() == l[i as int]);
            assert(rows@.drop_last() =~= rb);
            assert(rows@.last() == row);
            assert(l[i as int] == data.mail_v2_update_event_event_list@[i as int]@);
            assert(row_views(rows@) =~= row_views(old(rows)@) + spec_rows_mail_v2_update_list(t));
        }
        i = i + 1;
    }
    proof {
        assert(l.take(l.len() as int) =~= l);
    }
}

fn append_mail_v2_read_rows(data: &Data, rows: &mut Vec<DatabaseRow>)
    ensures
        row_views(final(rows)@) == row_views(old(rows)@) + spec_rows_mail_v2_read_list(
            data@.mail_v2_read_event_event_list,
        ),
{
    let ghost l = data@.mail_v2_read_event_event_list;
    let mut i: usize = 0;
    while i < data.mail_v2_read_event_event_list.len()
        invariant
            i <= l.len(),
            l == data@.mail_v2_read_event_event_list,
            row_views(rows@) == row_views(old(rows)@) + spec_rows_mail_v2_read_list(l.take(i as int)),
        decreases l.len() - i,
    {
        let row = row_for_mail_v2_read(&data.mail_v2_read_event_event_list[i]);
        let ghost rb = rows@;
        rows.push(row);
        proof {
            let t = l.take(i as int + 1);
            assert(t.drop_last() =~= l.take(i as int));
            assert(t.last() == l[i as int]);
            assert(rows@.drop_last() =~= rb);
            assert(rows@.last() == row);
            assert(l[i as int] == data.mail_v2_read_event_event_list@[i as int]@);
            assert(row_views(rows@) =~= row_views(old(rows)@) + spec_rows_mail_v2_read_list(t));
        }
        i = i + 1;
    }
    proof {
        assert(l.take(l.len() as int) =~= l);
    }
}

fn append_mail_v2_update_label_rows(data: &Data, rows: &mut Vec<DatabaseRow>)
    ensures
        row_views(final(rows)@) == row_views(old(rows)@) + spec_rows_mail_v2_update_label_list(
            data@.mail_v2_update_label_event_event_list,
        ),
{
    let ghost l = data@.mail_v2_update_label_event_event_list;
    let mut i: usize = 0;
    while i < data.mail_v2_update_label_event_event_list.len()
        invariant
            i <= l.len(),
            l == data@.mail_v2_update_label_event_event_list,
            row_views(rows@) == row_views(old(rows)@) + spec_rows_mail_v2_update_label_list(l.take(i as int)),
        decreases l.len() - i,
    {
        let row = row_for_mail_v2_update_label(&data.mail_v2_update_label_event_event_list[i]);
        let ghost rb = rows@;
        rows.push(row);
        proof {
            let t = l.take(i as int + 1);
            assert(t.drop_last() =~= l.take(i as int));
            assert(t.last() == l[i as int]);
            assert(rows@.drop_last() =~= rb);
            assert(rows@.last() == row);
            assert(l[i as int] == data.mail_v2_update_label_event_event_list@[i as int]@);
            assert(row_views(rows@) =~= row_views(old(rows)@) + spec_rows_mail_v2_update_label_list(t));
        }
        i = i + 1;
    }
    proof {
        assert(l.take(l.len() as int) =~= l);
    }
}

fn append_mail_account_v2_register_rows(data: &Data, rows: &mut Vec<DatabaseRow>)
    ensures
        row_views(final(rows)@) == row_views(old(rows)@) + spec_rows_mail_account_v2_register_list(
            data@.mail_account_v2_register_event_event_list,
        ),
{
    let ghost l = data@.mail_account_v2_register_event_event_list;
    let mut i: usize = 0;
    while i < data.mail_account_v2_register_event_event_list.len()
        invariant
            i <= l.len(),
            l == data@.mail_account_v2_register_event_event_list,
            row_views(rows@) == row_views(old(rows)@) + spec_rows_mail_account_v2_register_list(l.take(i as int)),
        decreases l.len() - i,
    {
        let row = row_for_mail_account_v2_register(&data.mail_account_v2_register_event_event_list[i]);
        let ghost rb = rows@;
        rows.push(row);
        proof {
            let t = l.take(i as int + 1);
            assert(t.drop_last() =~= l.take(i as int));
            assert(t.last() == l[i as int]);
            assert(rows@.drop_last() =~= rb);
            assert(rows@.last() == row);
            assert(l[i as int] == data.mail_account_v2_register_event_event_list@[i as int]@);
            assert(row_views(rows@) =~= row_views(old(rows)@) + spec_rows_mail_account_v2_register_list(t));
        }
        i = i + 1;
    }
    proof {
        assert(l.take(l.len() as int) =~= l);
    }
}

fn append_mail_account_v2_update_rows(data: &Data, rows: &mut Vec<DatabaseRow>)
    ensures
        row_views(final(rows)@) == row_views(old(rows)@) + spec_rows_mail_account_v2_update_list(
            data@.mail_account_v2_update_event_event_list,
        ),
{
    let ghost l = data@.mail_account_v2_update_event_event_list;
    let mut i: usize = 0;
    while i < data.mail_account_v2_update_event_event_list.len()
        invariant
            i <= l.len(),
            l == data@.mail_account_v2_update_event_event_list,
            row_views(rows@) == row_views(old(rows)@) + spec_rows_mail_account_v2_update_list(l.take(i as int)),
        decreases l.len() - i,
    {
        let row = row_for_mail_account_v2_update(&data.mail_account_v2_update_event_event_list[i]);
        let ghost rb = rows@;
        rows.push(row);
        proof {
            let t = l.take(i as int + 1);
            assert(t.drop_last() =~= l.take(i as int));
            assert(t.last() == l[i as int]);
            assert(rows@.drop_last() =~= rb);
            assert(rows@.last() == row);
            assert(l[i as int] == data.mail_account_v2_update_event_event_list@[i as int]@);
            assert(row_views(rows@) =~= row_views(old(rows)@) + spec_rows_mail_account_v2_update_list(t));
        }
        i = i + 1;
    }
    proof {
        assert(l.take(l.len() as int) =~= l);
    }
}

fn append_createmail_rows(data: &Data, rows: &mut Vec<DatabaseRow>)
    ensures
        row_views(final(rows)@) == row_views(old(rows)@) + spec_rows_createmail_list(
            data@.createmail_instruction_list,
        ),
{
    let ghost l = data@.createmail_instruction_list;
    let mut i: usize = 0;
    while i < data.createmail_instruction_list.len()
        invariant
            i <= l.len(),
            l == data@.createmail_instruction_list,
            row_views(rows@) == row_views(old(rows)@) + spec_rows_createmail_list(l.take(i as int)),
        decreases l.len() - i,
    {
        let row = row_for_createmail(&data.createmail_instruction_list[i]);
        let ghost rb = rows@;
        rows.push(row);
        proof {
            let t = l.take(i as int + 1);
            assert(t.drop_last() =~= l.take(i as int));
            assert(t.last() == l[i as int]);
            assert(rows@.drop_last() =~= rb);
            assert(rows@.last() == row);
            assert(l[i as int] == data.createmail_instruction_list@[i as int]@);
            assert(row_views(rows@) =~= row_views(old(rows)@) + spec_rows_createmail_list(t));
        }
        i = i + 1;
    }
    proof {
        assert(l.take(l.len() as int) =~= l);
    }
}

fn append_updatemail_rows(data: &Data, rows: &mut Vec<DatabaseRow>)
    ensures
        row_views(final(rows)@) == row_views(old(rows)@) + spec_rows_updatemail_list(
            data@.updatemail_instruction_list,
        ),
{
    let ghost l = data@.updatemail_instruction_list;
    let mut i: usize = 0;
    while i < data.updatemail_instruction_list.len()
        invariant
            i <= l.len(),
            l == data@.updatemail_instruction_list,
            row_views(rows@) == row_views(old(rows)@) + spec_rows_updatemail_list(l.take(i as int)),
        decreases l.len() - i,
    {
        let row = row_for_updatemail(&data.updatemail_instruction_list[i]);
        let ghost rb = rows@;
        rows.push(row);
        proof {
            let t = l.take(i as int + 1);
            assert(t.drop_last() =~= l.take(i as int));
            assert(t.last() == l[i as int]);
            assert(rows@.drop_last() =~= rb);
            assert(rows@.last() == row);
            assert(l[i as int] == data.updatemail_instruction_list@[i as int]@);
            assert(row_views(rows@) =~= row_views(old(rows)@) + spec_rows_updatemail_list(t));
        }
        i = i + 1;
    }
    proof {
        assert(l.take(l.len() as int) =~= l);
    }
}

fn append_updatemailreadstatus_rows(data: &Data, rows: &mut Vec<DatabaseRow>)
    ensures
        row_views(final(rows)@) == row_views(old(rows)@) + spec_rows_updatemailreadstatus_list(
            data@.updatemailreadstatus_instruction_list,
        ),
{
    let ghost l = data@.updatemailreadstatus_instruction_list;
    let mut i: usize = 0;
    while i < data.updatemailreadstatus_instruction_list.len()
        invariant
            i <= l.len(),
            l == data@.updatemailreadstatus_instruction_list,
            row_views(rows@) == row_views(old(rows)@) + spec_rows_updatemailreadstatus_list(l.take(i as int)),
        decreases l.len() - i,
    {
        let row = row_for_updatemailreadstatus(&data.updatemailreadstatus_instruction_list[i]);
        let ghost rb = rows@;
        rows.push(row);
        proof {
            let t = l.take(i as int + 1);
            assert(t.drop_last() =~= l.take(i as int));
            assert(t.last() == l[i as int]);
            assert(rows@.drop_last() =~= rb);
            assert(rows@.last() == row);
            assert(l[i as int] == data.updatemailreadstatus_instruction_list@[i as int]@);
            assert(row_views(rows@) =~= row_views(old(rows)@) + spec_rows_updatemailreadstatus_list(t));
        }
        i = i + 1;
    }
    proof {
        assert(l.take(l.len() as int) =~= l);
    }
}

fn append_updatemaillabel_rows(data: &Data, rows: &mut Vec<DatabaseRow>)
    ensures
        row_views(final(rows)@) == row_views(old(rows)@) + spec_rows_updatemaillabel_list(
            data@.updatemaillabel_instruction_list,
        ),
{
    let ghost l = data@.updatemaillabel_instruction_list;
    let mut i: usize = 0;
    while i < data.updatemaillabel_instruction_list.len()
        invariant
            i <= l.len(),
            l == data@.updatemaillabel_instruction_list,
            row_views(rows@) == row_views(old(rows)@) + spec_rows_updatemaillabel_list(l.take(i as int)),
        decreases l.len() - i,
    {
        let row = row_for_updatemaillabel(&data.updatemaillabel_instruction_list[i]);
        let ghost rb = rows@;
        rows.push(row);
        proof {
            let t = l.take(i as int + 1);
            assert(t.drop_last() =~= l.take(i as int));
            assert(t.last() == l[i as int]);
            assert(rows@.drop_last() =~= rb);
            assert(rows@.last() == row);
            assert(l[i as int] == data.updatemaillabel_instruction_list@[i as int]@);
            assert(row_views(rows@) =~= row_views(old(rows)@) + spec_rows_updatemaillabel_list(t));
        }
        i = i + 1;
    }
    proof {
        assert(l.take(l.len() as int) =~= l);
    }
}

fn append_register_v2_rows(data: &Data, rows: &mut Vec<DatabaseRow>)
    ensures
        row_views(final(rows)@) == row_views(old(rows)@) + spec_rows_register_v2_list(
            data@.register_v2_instruction_list,
        ),
{
    let ghost l = data@.register_v2_instruction_list;
    let mut i: usize = 0;
    while i < data.register_v2_instruction_list.len()
        invariant
            i <= l.len(),
            l == data@.register_v2_instruction_list,
            row_views(rows@) == row_views(old(rows)@) + spec_rows_register_v2_list(l.take(i as int)),
        decreases l.len() - i,
    {
        let row = row_for_register_v2(&data.register_v2_instruction_list[i]);
        let ghost rb = rows@;
        rows.push(row);
        proof {
            let t = l.take(i as int + 1);
            assert(t.drop_last() =~= l.take(i as int));
            assert(t.last() == l[i as int]);
            assert(rows@.drop_last() =~= rb);
            assert(rows@.last() == row);
            assert(l[i as int] == data.register_v2_instruction_list@[i as int]@);
            assert(row_views(rows@) =~= row_views(old(rows)@) + spec_rows_register_v2_list(t));
        }
        i = i + 1;
    }
    proof {
        assert(l.take(l.len() as int) =~= l);
    }
}

fn append_update_account_v2_rows(data: &Data, rows: &mut Vec<DatabaseRow>)
    ensures
        row_views(final(rows)@) == row_views(old(rows)@) + spec_rows_update_account_v2_list(
            data@.update_account_v2_instruction_list,
        ),
{
    let ghost l = data@.update_account_v2_instruction_list;
    let mut i: usize = 0;
    while i < data.update_account_v2_instruction_list.len()
        invariant
            i <= l.len(),
            l == data@.update_account_v2_instruction_list,
            row_views(rows@) == row_views(old(rows)@) + spec_rows_update_account_v2_list(l.take(i as int)),
        decreases l.len() - i,
    {
        let row = row_for_update_account_v2(&data.update_account_v2_instruction_list[i]);
        let ghost rb = rows@;
        rows.push(row);
        proof {
            let t = l.take(i as int + 1);
            assert(t.drop_last() =~= l.take(i as int));
            assert(t.last() == l[i as int]);
            assert(rows@.drop_last() =~= rb);
            assert(rows@.last() == row);
            assert(l[i as int] == data.update_account_v2_instruction_list@[i as int]@);
            assert(row_views(rows@) =~= row_views(old(rows)@) + spec_rows_update_account_v2_list(t));
        }
        i = i + 1;
    }
    proof {
        assert(l.take(l.len() as int) =~= l);
    }
}

fn append_sendmail_rows(data: &Data, rows: &mut Vec<DatabaseRow>)
    ensures
        row_views(final(rows)@) == row_views(old(rows)@) + spec_rows_sendmail_list(
            data@.sendmail_instruction_list,
        ),
{
    let ghost l = data@.sendmail_instruction_list;
    let mut i: usize = 0;
    while i < data.sendmail_instruction_list.len()
        invariant
            i <= l.len(),
            l == data@.sendmail_instruction_list,
            row_views(rows@) == row_views(old(rows)@) + spec_rows_sendmail_list(l.take(i as int)),
        decreases l.len() - i,
    {
        let row = row_for_sendmail(&data.sendmail_instruction_list[i]);
        let ghost rb = rows@;
        rows.push(row);
        proof {
            let t = l.take(i as int + 1);
            assert(t.drop_last() =~= l.take(i as int));
            assert(t.last() == l[i as int]);
            assert(rows@.drop_last() =~= rb);
            assert(rows@.last() == row);
            assert(l[i as int] == data.sendmail_instruction_list@[i as int]@);
            assert(row_views(rows@) =~= row_views(old(rows)@) + spec_rows_sendmail_list(t));
        }
        i = i + 1;
    }
    proof {
        assert(l.take(l.len() as int) =~= l);
    }
}

fn append_register_rows(data: &Data, rows: &mut Vec<DatabaseRow>)
    ensures
        row_views(final(rows)@) == row_views(old(rows)@) + spec_rows_register_list(
            data@.register_instruction_list,
        ),
{
    let ghost l = data@.register_instruction_list;
    let mut i: usize = 0;
    while i < data.register_instruction_list.len()
        invariant
            i <= l.len(),
            l == data@.register_instruction_list,
            row_views(rows@) == row_views(old(rows)@) + spec_rows_register_list(l.take(i as int)),
        decreases l.len() - i,
    {
        let row = row_for_register(&data.register_instruction_list[i]);
        let ghost rb = rows@;
        rows.push(row);
        proof {
            let t = l.take(i as int + 1);
            assert(t.drop_last() =~= l.take(i as int));
            assert(t.last() == l[i as int]);
            assert(rows@.drop_last() =~= rb);
            assert(rows@.last() == row);
            assert(l[i as int] == data.register_instruction_list@[i as int]@);
            assert(row_views(rows@) =~= row_views(old(rows)@) + spec_rows_register_list(t));
        }
        i = i + 1;
    }
    proof {
        assert(l.take(l.len() as int) =~= l);
    }
}

/// Converts a whole processing pass's output into its storage rows: one
/// row per assembled record, the seven event lists first, then the eight
/// instruction lists, each in discovery order.  A pure function of the
/// input bundle — converting the same bundle twice produces byte-identical
/// rows with identical keys.
pub fn db_out(data: &Data) -> (r: Vec<DatabaseRow>)
    ensures
        row_views(r@) == spec_db_rows(data@),
{
    let mut rows: Vec<DatabaseRow> = Vec::new();
    proof {
        assert(row_views(rows@) =~= Seq::<DatabaseRowView>::empty());
    }
    append_mail_send_rows(data, &mut rows);
    append_mail_v2_send_rows(data, &mut rows);
    append_mail_v2_update_rows(data, &mut rows);
    append_mail_v2_read_rows(data, &mut rows);
    append_mail_v2_update_label_rows(data, &mut rows);
    append_mail_account_v2_register_rows(data, &mut rows);
    append_mail_account_v2_update_rows(data, &mut rows);
    append_createmail_rows(data, &mut rows);
    append_updatemail_rows(data, &mut rows);
    append_updatemailreadstatus_rows(data, &mut rows);
    append_updatemaillabel_rows(data, &mut rows);
    append_register_v2_rows(data, &mut rows);
    append_update_account_v2_rows(data, &mut rows);
    append_sendmail_rows(data, &mut rows);
    append_register_rows(data, &mut rows);
    proof {
        assert(row_views(rows@) =~= spec_db_rows(data@));
    }
    rows
}


/// Idempotence: two processing passes over the same transactions produce
/// the same output bundle, and hence byte-identical rows — same tables,
/// same keys, same columns.  Nothing in the pipeline depends on time,
/// randomness or retained state.
pub proof fn lemma_processing_idempotent(
    transactions: Seq<crate::pipeline::TransactionInput>,
    d1: DataView,
    d2: DataView,
)
    requires
        d1 == crate::pipeline::spec_data_of(transactions),
        d2 == crate::pipeline::spec_data_of(transactions),
    ensures
        d1 == d2,
        spec_db_rows(d1) == spec_db_rows(d2),
{
}

// ============================================================================
// Mail labels
// ============================================================================

/// The closed set of mail labels a mailbox entry can carry.
#[derive(Clone, Copy, Debug, PartialEq, Eq, Structural)]
pub enum MailLabel {
    Outbox,
    Inbox,
    Read,
    Trash,
    Spam,
}

/// The storage code of each mail label.
pub open spec fn spec_mail_label_code(value: MailLabel) -> i32 {
    match value {
        MailLabel::Outbox => 0,
        MailLabel::Inbox => 1,
        MailLabel::Read => 2,
        MailLabel::Trash => 3,
        MailLabel::Spam => 4,
    }
}

/// Maps a mail label to the integer the storage rows carry.
pub fn map_enum_mail_label(value: MailLabel) -> (r: i32)
    ensures
        r == spec_mail_label_code(value),
{
    match value {
        MailLabel::Outbox => 0,
        MailLabel::Inbox => 1,
        MailLabel::Read => 2,
        MailLabel::Trash => 3,
        MailLabel::Spam => 4,
    }
}

} // verus!
