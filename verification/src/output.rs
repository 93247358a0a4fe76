//! The assembled output records: each decoded record paired with its
//! transaction context, in the shape the row emitter consumes, and the
//! `Data` bundle that one processing pass produces — one list per record
//! type, in discovery order.

use vstd::prelude::*;

verus! {

#[verifier::ext_equal]
pub struct MailSendEventEventView {
    pub trx_hash: Seq<char>,
    pub from: Seq<char>,
    pub to: Seq<char>,
    pub id: Seq<char>,
}

#[derive(Clone, Debug)]
pub struct MailSendEventEvent {
    pub trx_hash: String,
    pub from: String,
    pub to: String,
    pub id: String,
}

impl View for MailSendEventEvent {
    type V = MailSendEventEventView;

    open spec fn view(&self) -> MailSendEventEventView {
        MailSendEventEventView {
            trx_hash: self.trx_hash@,
            from: self.from@,
            to: self.to@,
            id: self.id@,
        }
    }
}

#[verifier::ext_equal]
pub struct MailV2SendEventEventView {
    pub trx_hash: Seq<char>,
    pub from: Seq<char>,
    pub to: Seq<char>,
    pub id: Seq<char>,
    pub mailbox: Seq<char>,
}

#[derive(Clone, Debug)]
pub struct MailV2SendEventEvent {
    pub trx_hash: String,
    pub from: String,
    pub to: String,
    pub id: String,
    pub mailbox: String,
}

impl View for MailV2SendEventEvent {
    type V = MailV2SendEventEventView;

    open spec fn view(&self) -> MailV2SendEventEventView {
        MailV2SendEventEventView {
            trx_hash: self.trx_hash@,
            from: self.from@,
            to: self.to@,
            id: self.id@,
            mailbox: self.mailbox@,
        }
    }
}

#[verifier::ext_equal]
pub struct MailV2UpdateEventEventView {
    pub trx_hash: Seq<char>,
    pub from: Seq<char>,
    pub to: Seq<char>,
    pub id: Seq<char>,
    pub mailbox: Seq<char>,
    pub parent_id: Seq<char>,
    pub mark_as_read: bool,
    pub created_at: u32,
    pub subject: Seq<char>,
    pub body: Seq<char>,
    pub authority: Seq<char>,
    pub iv: Seq<char>,
    pub salt: Seq<char>,
    pub version: Seq<char>,
}

#[derive(Clone, Debug)]
pub struct MailV2UpdateEventEvent {
    pub trx_hash: String,
    pub from: String,
    pub to: String,
    pub id: String,
    pub mailbox: String,
    pub parent_id: String,
    pub mark_as_read: bool,
    pub created_at: u32,
    pub subject: String,
    pub body: String,
    pub authority: String,
    pub iv: String,
    pub salt: String,
    pub version: String,
}

impl View for MailV2UpdateEventEvent {
    type V = MailV2UpdateEventEventView;

    open spec fn view(&self) -> MailV2UpdateEventEventView {
        MailV2UpdateEventEventView {
            trx_hash: self.trx_hash@,
            from: self.from@,
            to: self.to@,
            id: self.id@,
            mailbox: self.mailbox@,
            parent_id: self.parent_id@,
            mark_as_read: self.mark_as_read,
            created_at: self.created_at,
            subject: self.subject@,
            body: self.body@,
            authority: self.authority@,
            iv: self.iv@,
            salt: self.salt@,
            version: self.version@,
        }
    }
}

#[verifier::ext_equal]
pub struct MailV2ReadEventEventView {
    pub trx_hash: Seq<char>,
    pub id: Seq<char>,
    pub owner: Seq<char>,
}

#[derive(Clone, Debug)]
pub struct MailV2ReadEventEvent {
    pub trx_hash: String,
    pub id: String,
    pub owner: String,
}

impl View for MailV2ReadEventEvent {
    type V = MailV2ReadEventEventView;

    open spec fn view(&self) -> MailV2ReadEventEventView {
        MailV2ReadEventEventView {
            trx_hash: self.trx_hash@,
            id: self.id@,
            owner: self.owner@,
        }
    }
}

#[verifier::ext_equal]
pub struct MailV2UpdateLabelEventEventView {
    pub trx_hash: Seq<char>,
    pub id: Seq<char>,
    pub owner: Seq<char>,
}

#[derive(Clone, Debug)]
pub struct MailV2UpdateLabelEventEvent {
    pub trx_hash: String,
    pub id: String,
    pub owner: String,
}

impl View for MailV2UpdateLabelEventEvent {
    type V = MailV2UpdateLabelEventEventView;

    open spec fn view(&self) -> MailV2UpdateLabelEventEventView {
        MailV2UpdateLabelEventEventView {
            trx_hash: self.trx_hash@,
            id: self.id@,
            owner: self.owner@,
        }
    }
}

#[verifier::ext_equal]
pub struct MailAccountV2RegisterEventEventView {
    pub trx_hash: Seq<char>,
    pub owner: Seq<char>,
    pub account: Seq<char>,
}

#[derive(Clone, Debug)]
pub struct MailAccountV2RegisterEventEvent {
    pub trx_hash: String,
    pub owner: String,
    pub account: String,
}

impl View for MailAccountV2RegisterEventEvent {
    type V = MailAccountV2RegisterEventEventView;

    open spec fn view(&self) -> MailAccountV2RegisterEventEventView {
        MailAccountV2RegisterEventEventView {
            trx_hash: self.trx_hash@,
            owner: self.owner@,
            account: self.account@,
        }
    }
}

#[verifier::ext_equal]
pub struct MailAccountV2UpdateEventEventView {
    pub trx_hash: Seq<char>,
    pub owner: Seq<char>,
    pub account: Seq<char>,
}

#[derive(Clone, Debug)]
pub struct MailAccountV2UpdateEventEvent {
    pub trx_hash: String,
    pub owner: String,
    pub account: String,
}

impl View for MailAccountV2UpdateEventEvent {
    type V = MailAccountV2UpdateEventEventView;

    open spec fn view(&self) -> MailAccountV2UpdateEventEventView {
        MailAccountV2UpdateEventEventView {
            trx_hash: self.trx_hash@,
            owner: self.owner@,
            account: self.account@,
        }
    }
}

#[verifier::ext_equal]
pub struct CreatemailInstructionView {
    pub trx_hash: Seq<char>,
    pub subject: Seq<char>,
    pub from: Seq<char>,
    pub to: Seq<char>,
    pub salt: Seq<char>,
    pub iv: Seq<char>,
    pub version: Seq<char>,
    pub parent_id: Seq<char>,
    pub acct_mail: Seq<char>,
    pub acct_mail_account_v2: Seq<char>,
    pub acct_authority: Seq<char>,
    pub acct_system_program: Seq<char>,
}

#[derive(Clone, Debug)]
pub struct CreatemailInstruction {
    pub trx_hash: String,
    pub subject: String,
    pub from: String,
    pub to: String,
    pub salt: String,
    pub iv: String,
    pub version: String,
    pub parent_id: String,
    pub acct_mail: String,
    pub acct_mail_account_v2: String,
    pub acct_authority: String,
    pub acct_system_program: String,
}

impl View for CreatemailInstruction {
    type V = CreatemailInstructionView;

    open spec fn view(&self) -> CreatemailInstructionView {
        CreatemailInstructionView {
            trx_hash: self.trx_hash@,
            subject: self.subject@,
            from: self.from@,
            to: self.to@,
            salt: self.salt@,
            iv: self.iv@,
            version: self.version@,
            parent_id: self.parent_id@,
            acct_mail: self.acct_mail@,
            acct_mail_account_v2: self.acct_mail_account_v2@,
            acct_authority: self.acct_authority@,
            acct_system_program: self.acct_system_program@,
        }
    }
}

#[verifier::ext_equal]
pub struct UpdatemailInstructionView {
    pub trx_hash: Seq<char>,
    pub body: Seq<char>,
    pub acct_mail: Seq<char>,
    pub acct_authority: Seq<char>,
    pub acct_system_program: Seq<char>,
}

#[derive(Clone, Debug)]
pub struct UpdatemailInstruction {
    pub trx_hash: String,
    pub body: String,
    pub acct_mail: String,
    pub acct_authority: String,
    pub acct_system_program: String,
}

impl View for UpdatemailInstruction {
    type V = UpdatemailInstructionView;

    open spec fn view(&self) -> UpdatemailInstructionView {
        UpdatemailInstructionView {
            trx_hash: self.trx_hash@,
            body: self.body@,
            acct_mail: self.acct_mail@,
            acct_authority: self.acct_authority@,
            acct_system_program: self.acct_system_program@,
        }
    }
}

#[verifier::ext_equal]
pub struct UpdatemailreadstatusInstructionView {
    pub trx_hash: Seq<char>,
    pub acct_mail: Seq<char>,
    pub acct_authority: Seq<char>,
    pub acct_system_program: Seq<char>,
}

#[derive(Clone, Debug)]
pub struct UpdatemailreadstatusInstruction {
    pub trx_hash: String,
    pub acct_mail: String,
    pub acct_authority: String,
    pub acct_system_program: String,
}

impl View for UpdatemailreadstatusInstruction {
    type V = UpdatemailreadstatusInstructionView;

    open spec fn view(&self) -> UpdatemailreadstatusInstructionView {
        UpdatemailreadstatusInstructionView {
            trx_hash: self.trx_hash@,
            acct_mail: self.acct_mail@,
            acct_authority: self.acct_authority@,
            acct_system_program: self.acct_system_program@,
        }
    }
}

#[verifier::ext_equal]
pub struct UpdatemaillabelInstructionView {
    pub trx_hash: Seq<char>,
    pub label: u64,
    pub acct_mail: Seq<char>,
    pub acct_authority: Seq<char>,
    pub acct_system_program: Seq<char>,
}

#[derive(Clone, Debug)]
pub struct UpdatemaillabelInstruction {
    pub trx_hash: String,
    pub label: u64,
    pub acct_mail: String,
    pub acct_authority: String,
    pub acct_system_program: String,
}

impl View for UpdatemaillabelInstruction {
    type V = UpdatemaillabelInstructionView;

    open spec fn view(&self) -> UpdatemaillabelInstructionView {
        UpdatemaillabelInstructionView {
            trx_hash: self.trx_hash@,
            label: self.label,
            acct_mail: self.acct_mail@,
            acct_authority: self.acct_authority@,
            acct_system_program: self.acct_system_program@,
        }
    }
}

#[verifier::ext_equal]
pub struct RegisterV2InstructionView {
    pub trx_hash: Seq<char>,
    pub nostr_key: Seq<char>,
    pub acct_mail_account_v2: Seq<char>,
    pub acct_authority: Seq<char>,
    pub acct_system_program: Seq<char>,
}

#[derive(Clone, Debug)]
pub struct RegisterV2Instruction {
    pub trx_hash: String,
    pub nostr_key: String,
    pub acct_mail_account_v2: String,
    pub acct_authority: String,
    pub acct_system_program: String,
}

impl View for RegisterV2Instruction {
    type V = RegisterV2InstructionView;

    open spec fn view(&self) -> RegisterV2InstructionView {
        RegisterV2InstructionView {
            trx_hash: self.trx_hash@,
            nostr_key: self.nostr_key@,
            acct_mail_account_v2: self.acct_mail_account_v2@,
            acct_authority: self.acct_authority@,
            acct_system_program: self.acct_system_program@,
        }
    }
}

#[verifier::ext_equal]
pub struct UpdateAccountV2InstructionView {
    pub trx_hash: Seq<char>,
    pub nostr_key: Seq<char>,
    pub mailbox: Seq<char>,
    pub acct_mail_account_v2: Seq<char>,
    pub acct_authority: Seq<char>,
}

#[derive(Clone, Debug)]
pub struct UpdateAccountV2Instruction {
    pub trx_hash: String,
    pub nostr_key: String,
    pub mailbox: String,
    pub acct_mail_account_v2: String,
    pub acct_authority: String,
}

impl View for UpdateAccountV2Instruction {
    type V = UpdateAccountV2InstructionView;

    open spec fn view(&self) -> UpdateAccountV2InstructionView {
        UpdateAccountV2InstructionView {
            trx_hash: self.trx_hash@,
            nostr_key: self.nostr_key@,
            mailbox: self.mailbox@,
            acct_mail_account_v2: self.acct_mail_account_v2@,
            acct_authority: self.acct_authority@,
        }
    }
}

#[verifier::ext_equal]
pub struct SendmailInstructionView {
    pub trx_hash: Seq<char>,
    pub subject: Seq<char>,
    pub body: Seq<char>,
    pub from: Seq<char>,
    pub to: Seq<char>,
    pub salt: Seq<char>,
    pub iv: Seq<char>,
    pub version: Seq<char>,
    pub acct_mail: Seq<char>,
    pub acct_authority: Seq<char>,
    pub acct_system_program: Seq<char>,
}

#[derive(Clone, Debug)]
pub struct SendmailInstruction {
    pub trx_hash: String,
    pub subject: String,
    pub body: String,
    pub from: String,
    pub to: String,
    pub salt: String,
    pub iv: String,
    pub version: String,
    pub acct_mail: String,
    pub acct_authority: String,
    pub acct_system_program: String,
}

impl View for SendmailInstruction {
    type V = SendmailInstructionView;

    open spec fn view(&self) -> SendmailInstructionView {
        SendmailInstructionView {
            trx_hash: self.trx_hash@,
            subject: self.subject@,
            body: self.body@,
            from: self.from@,
            to: self.to@,
            salt: self.salt@,
            iv: self.iv@,
            version: self.version@,
            acct_mail: self.acct_mail@,
            acct_authority: self.acct_authority@,
            acct_system_program: self.acct_system_program@,
        }
    }
}

#[verifier::ext_equal]
pub struct RegisterInstructionView {
    pub trx_hash: Seq<char>,
    pub nostr_key: Seq<char>,
    pub acct_mail_account: Seq<char>,
    pub acct_authority: Seq<char>,
    pub acct_system_program: Seq<char>,
}

#[derive(Clone, Debug)]
pub struct RegisterInstruction {
    pub trx_hash: String,
    pub nostr_key: String,
    pub acct_mail_account: String,
    pub acct_authority: String,
    pub acct_system_program: String,
}

impl View for RegisterInstruction {
    type V = RegisterInstructionView;

    open spec fn view(&self) -> RegisterInstructionView {
        RegisterInstructionView {
            trx_hash: self.trx_hash@,
            nostr_key: self.nostr_key@,
            acct_mail_account: self.acct_mail_account@,
            acct_authority: self.acct_authority@,
            acct_system_program: self.acct_system_program@,
        }
    }
}

/// Ghost value of a whole processing pass's output.
#[verifier::ext_equal]
pub struct DataView {
    pub mail_send_event_event_list: Seq<MailSendEventEventView>,
    pub mail_v2_send_event_event_list: Seq<MailV2SendEventEventView>,
    pub mail_v2_update_event_event_list: Seq<MailV2UpdateEventEventView>,
    pub mail_v2_read_event_event_list: Seq<MailV2ReadEventEventView>,
    pub mail_v2_update_label_event_event_list: Seq<MailV2UpdateLabelEventEventView>,
    pub mail_account_v2_register_event_event_list: Seq<MailAccountV2RegisterEventEventView>,
    pub mail_account_v2_update_event_event_list: Seq<MailAccountV2UpdateEventEventView>,
    pub createmail_instruction_list: Seq<CreatemailInstructionView>,
    pub updatemail_instruction_list: Seq<UpdatemailInstructionView>,
    pub updatemailreadstatus_instruction_list: Seq<UpdatemailreadstatusInstructionView>,
    pub updatemaillabel_instruction_list: Seq<UpdatemaillabelInstructionView>,
    pub register_v2_instruction_list: Seq<RegisterV2InstructionView>,
    pub update_account_v2_instruction_list: Seq<UpdateAccountV2InstructionView>,
    pub sendmail_instruction_list: Seq<SendmailInstructionView>,
    pub register_instruction_list: Seq<RegisterInstructionView>,
}

impl DataView {
    /// The output of a pass that found nothing.
    pub open spec fn empty() -> DataView {
        DataView {
            mail_send_event_event_list: Seq::empty(),
            mail_v2_send_event_event_list: Seq::empty(),
            mail_v2_update_event_event_list: Seq::empty(),
            mail_v2_read_event_event_list: Seq::empty(),
            mail_v2_update_label_event_event_list: Seq::empty(),
            mail_account_v2_register_event_event_list: Seq::empty(),
            mail_account_v2_update_event_event_list: Seq::empty(),
            createmail_instruction_list: Seq::empty(),
            updatemail_instruction_list: Seq::empty(),
            updatemailreadstatus_instruction_list: Seq::empty(),
            updatemaillabel_instruction_list: Seq::empty(),
            register_v2_instruction_list: Seq::empty(),
            update_account_v2_instruction_list: Seq::empty(),
            sendmail_instruction_list: Seq::empty(),
            register_instruction_list: Seq::empty(),
        }
    }

    /// Two passes' outputs, list by list, this one first.
    pub open spec fn concat(self, other: DataView) -> DataView {
        DataView {
            mail_send_event_event_list: self.mail_send_event_event_list + other.mail_send_event_event_list,
            mail_v2_send_event_event_list: self.mail_v2_send_event_event_list + other.mail_v2_send_event_event_list,
            mail_v2_update_event_event_list: self.mail_v2_update_event_event_list + other.mail_v2_update_event_event_list,
            mail_v2_read_event_event_list: self.mail_v2_read_event_event_list + other.mail_v2_read_event_event_list,
            mail_v2_update_label_event_event_list: self.mail_v2_update_label_event_event_list + other.mail_v2_update_label_event_event_list,
            mail_account_v2_register_event_event_list: self.mail_account_v2_register_event_event_list + other.mail_account_v2_register_event_event_list,
            mail_account_v2_update_event_event_list: self.mail_account_v2_update_event_event_list + other.mail_account_v2_update_event_event_list,
            createmail_instruction_list: self.createmail_instruction_list + other.createmail_instruction_list,
            updatemail_instruction_list: self.updatemail_instruction_list + other.updatemail_instruction_list,
            updatemailreadstatus_instruction_list: self.updatemailreadstatus_instruction_list + other.updatemailreadstatus_instruction_list,
            updatemaillabel_instruction_list: self.updatemaillabel_instruction_list + other.updatemaillabel_instruction_list,
            register_v2_instruction_list: self.register_v2_instruction_list + other.register_v2_instruction_list,
            update_account_v2_instruction_list: self.update_account_v2_instruction_list + other.update_account_v2_instruction_list,
            sendmail_instruction_list: self.sendmail_instruction_list + other.sendmail_instruction_list,
            register_instruction_list: self.register_instruction_list + other.register_instruction_list,
        }
    }
}

/// Concatenation of outputs is associative.
pub proof fn lemma_data_concat_assoc(a: DataView, b: DataView, c: DataView)
    ensures
        a.concat(b).concat(c) == a.concat(b.concat(c)),
{
    assert(a.concat(b).concat(c) =~= a.concat(b.concat(c)));
}

/// The empty output is a unit for concatenation.
pub proof fn lemma_data_concat_empty(a: DataView)
    ensures
        a.concat(DataView::empty()) == a,
        DataView::empty().concat(a) == a,
{
    assert(a.concat(DataView::empty()) =~= a);
    assert(DataView::empty().concat(a) =~= a);
}

/// Everything one processing pass extracted from a block's transactions:
/// one list per record type, each in discovery order.
#[derive(Clone, Debug)]
pub struct Data {
    pub mail_send_event_event_list: Vec<MailSendEventEvent>,
    pub mail_v2_send_event_event_list: Vec<MailV2SendEventEvent>,
    pub mail_v2_update_event_event_list: Vec<MailV2UpdateEventEvent>,
    pub mail_v2_read_event_event_list: Vec<MailV2ReadEventEvent>,
    pub mail_v2_update_label_event_event_list: Vec<MailV2UpdateLabelEventEvent>,
    pub mail_account_v2_register_event_event_list: Vec<MailAccountV2RegisterEventEvent>,
    pub mail_account_v2_update_event_event_list: Vec<MailAccountV2UpdateEventEvent>,
    pub createmail_instruction_list: Vec<CreatemailInstruction>,
    pub updatemail_instruction_list: Vec<UpdatemailInstruction>,
    pub updatemailreadstatus_instruction_list: Vec<UpdatemailreadstatusInstruction>,
    pub updatemaillabel_instruction_list: Vec<UpdatemaillabelInstruction>,
    pub register_v2_instruction_list: Vec<RegisterV2Instruction>,
    pub update_account_v2_instruction_list: Vec<UpdateAccountV2Instruction>,
    pub sendmail_instruction_list: Vec<SendmailInstruction>,
    pub register_instruction_list: Vec<RegisterInstruction>,
}

impl Data {
    /// An output bundle with every list empty.
    pub fn new() -> (r: Data)
        ensures
            r@ == DataView::empty(),
    {
        let r = Data {
            mail_send_event_event_list: Vec::new(),
            mail_v2_send_event_event_list: Vec::new(),
            mail_v2_update_event_event_list: Vec::new(),
            mail_v2_read_event_event_list: Vec::new(),
            mail_v2_update_label_event_event_list: Vec::new(),
            mail_account_v2_register_event_event_list: Vec::new(),
            mail_account_v2_update_event_event_list: Vec::new(),
            createmail_instruction_list: Vec::new(),
            updatemail_instruction_list: Vec::new(),
            updatemailreadstatus_instruction_list: Vec::new(),
            updatemaillabel_instruction_list: Vec::new(),
            register_v2_instruction_list: Vec::new(),
            update_account_v2_instruction_list: Vec::new(),
            sendmail_instruction_list: Vec::new(),
            register_instruction_list: Vec::new(),
        };
        proof {
            assert(r@ =~= DataView::empty());
        }
        r
    }
}

impl View for Data {
    type V = DataView;

    open spec fn view(&self) -> DataView {
        DataView {
            mail_send_event_event_list: self.mail_send_event_event_list@.map_values(|e: MailSendEventEvent| e@),
            mail_v2_send_event_event_list: self.mail_v2_send_event_event_list@.map_values(|e: MailV2SendEventEvent| e@),
            mail_v2_update_event_event_list: self.mail_v2_update_event_event_list@.map_values(|e: MailV2UpdateEventEvent| e@),
            mail_v2_read_event_event_list: self.mail_v2_read_event_event_list@.map_values(|e: MailV2ReadEventEvent| e@),
            mail_v2_update_label_event_event_list: self.mail_v2_update_label_event_event_list@.map_values(|e: MailV2UpdateLabelEventEvent| e@),
            mail_account_v2_register_event_event_list: self.mail_account_v2_register_event_event_list@.map_values(|e: MailAccountV2RegisterEventEvent| e@),
            mail_account_v2_update_event_event_list: self.mail_account_v2_update_event_event_list@.map_values(|e: MailAccountV2UpdateEventEvent| e@),
            createmail_instruction_list: self.createmail_instruction_list@.map_values(|e: CreatemailInstruction| e@),
            updatemail_instruction_list: self.updatemail_instruction_list@.map_values(|e: UpdatemailInstruction| e@),
            updatemailreadstatus_instruction_list: self.updatemailreadstatus_instruction_list@.map_values(|e: UpdatemailreadstatusInstruction| e@),
            updatemaillabel_instruction_list: self.updatemaillabel_instruction_list@.map_values(|e: UpdatemaillabelInstruction| e@),
            register_v2_instruction_list: self.register_v2_instruction_list@.map_values(|e: RegisterV2Instruction| e@),
            update_account_v2_instruction_list: self.update_account_v2_instruction_list@.map_values(|e: UpdateAccountV2Instruction| e@),
            sendmail_instruction_list: self.sendmail_instruction_list@.map_values(|e: SendmailInstruction| e@),
            register_instruction_list: self.register_instruction_list@.map_values(|e: RegisterInstruction| e@),
        }
    }
}

} // verus!
