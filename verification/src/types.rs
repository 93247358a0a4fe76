//! The typed records decoded from payloads: seven event types and eight
//! instruction types, plus the fixed 32-byte key identifier they share.
//!
//! Each executable record has a ghost view struct holding the mathematical
//! values of its fields (`Seq<u8>` for keys, `Seq<char>` for text), which
//! the decoder contracts are stated over.

use vstd::prelude::*;

verus! {

/// The base58 text of a 32-byte key.  The encoding is not restated here;
/// the name stands for whatever the text for those bytes is, a pure
/// function of them.
pub uninterp spec fn base58_of(bytes: Seq<u8>) -> Seq<char>;

/// A fixed 32-byte opaque identifier read from a payload.
#[derive(Clone, Debug)]
pub struct Pubkey {
    pub bytes: Vec<u8>,
}

impl Pubkey {
    /// A key is well formed when it holds exactly 32 bytes.
    pub open spec fn wf(&self) -> bool {
        self.bytes@.len() == 32
    }

    /// Relies on anchor_lang's `Pubkey` display (the ledger's base58 key
    /// rendering): the text depends on the 32 key bytes alone.
    #[verifier::external_body]
    pub fn to_base58(&self) -> (r: String)
        requires
            self.wf(),
        ensures
            r@ == base58_of(self@),
    {
        let arr: [u8; 32] = self.bytes.as_slice().try_into().unwrap();
        anchor_lang::prelude::Pubkey::new_from_array(arr).to_string()
    }
}

impl View for Pubkey {
    type V = Seq<u8>;

    open spec fn view(&self) -> Seq<u8> {
        self.bytes@
    }
}

// ============================================================================
// Event records
// ============================================================================

pub struct MailSendEventView {
    pub from: Seq<u8>,
    pub to: Seq<u8>,
    pub id: Seq<char>,
}

#[derive(Clone, Debug)]
pub struct MailSendEventCustom {
    pub from: Pubkey,
    pub to: Pubkey,
    pub id: String,
}

impl MailSendEventCustom {
    pub open spec fn wf(&self) -> bool {
        self.from.wf() && self.to.wf()
    }
}

impl View for MailSendEventCustom {
    type V = MailSendEventView;

    open spec fn view(&self) -> MailSendEventView {
        MailSendEventView { from: self.from@, to: self.to@, id: self.id@ }
    }
}

pub struct MailV2SendEventView {
    pub from: Seq<u8>,
    pub to: Seq<u8>,
    pub id: Seq<char>,
    pub mailbox: Seq<u8>,
}

#[derive(Clone, Debug)]
pub struct MailV2SendEventCustom {
    pub from: Pubkey,
    pub to: Pubkey,
    pub id: String,
    pub mailbox: Pubkey,
}

impl MailV2SendEventCustom {
    pub open spec fn wf(&self) -> bool {
        self.from.wf() && self.to.wf() && self.mailbox.wf()
    }
}

impl View for MailV2SendEventCustom {
    type V = MailV2SendEventView;

    open spec fn view(&self) -> MailV2SendEventView {
        MailV2SendEventView {
            from: self.from@,
            to: self.to@,
            id: self.id@,
            mailbox: self.mailbox@,
        }
    }
}

pub struct MailV2UpdateEventView {
    pub from: Seq<u8>,
    pub to: Seq<u8>,
    pub id: Seq<char>,
    pub mailbox: Seq<u8>,
    pub parent_id: Seq<char>,
    pub mark_as_read: bool,
    pub created_at: u32,
    pub subject: Seq<char>,
    pub body: Seq<char>,
    pub authority: Seq<u8>,
    pub iv: Seq<char>,
    pub salt: Seq<char>,
    pub version: Seq<char>,
}

#[derive(Clone, Debug)]
pub struct MailV2UpdateEventCustom {
    pub from: Pubkey,
    pub to: Pubkey,
    pub id: String,
    pub mailbox: Pubkey,
    pub parent_id: String,
    pub mark_as_read: bool,
    pub created_at: u32,
    pub subject: String,
    pub body: String,
    pub authority: Pubkey,
    pub iv: String,
    pub salt: String,
    pub version: String,
}

impl MailV2UpdateEventCustom {
    pub open spec fn wf(&self) -> bool {
        self.from.wf() && self.to.wf() && self.mailbox.wf() && self.authority.wf()
    }
}

impl View for MailV2UpdateEventCustom {
    type V = MailV2UpdateEventView;

    open spec fn view(&self) -> MailV2UpdateEventView {
        MailV2UpdateEventView {
            from: self.from@,
            to: self.to@,
            id: self.id@,
            mailbox: self.mailbox@,
            parent_id: self.parent_id@,
            mark_as_read: self.mark_as_read,
            created_at: self.created_at,
            subject: self.subject@,
            body: self.body@,
            authority: self.authority@,
            iv: self.iv@,
            salt: self.salt@,
            version: self.version@,
        }
    }
}

pub struct MailV2ReadEventView {
    pub id: Seq<char>,
    pub owner: Seq<u8>,
}

#[derive(Clone, Debug)]
pub struct MailV2ReadEventCustom {
    pub id: String,
    pub owner: Pubkey,
}

impl MailV2ReadEventCustom {
    pub open spec fn wf(&self) -> bool {
        self.owner.wf()
    }
}

impl View for MailV2ReadEventCustom {
    type V = MailV2ReadEventView;

    open spec fn view(&self) -> MailV2ReadEventView {
        MailV2ReadEventView { id: self.id@, owner: self.owner@ }
    }
}

pub struct MailV2UpdateLabelEventView {
    pub id: Seq<char>,
    pub owner: Seq<u8>,
}

#[derive(Clone, Debug)]
pub struct MailV2UpdateLabelEventCustom {
    pub id: String,
    pub owner: Pubkey,
}

impl MailV2UpdateLabelEventCustom {
    pub open spec fn wf(&self) -> bool {
        self.owner.wf()
    }
}

impl View for MailV2UpdateLabelEventCustom {
    type V = MailV2UpdateLabelEventView;

    open spec fn view(&self) -> MailV2UpdateLabelEventView {
        MailV2UpdateLabelEventView { id: self.id@, owner: self.owner@ }
    }
}

pub struct MailAccountV2RegisterEventView {
    pub owner: Seq<u8>,
    pub account: Seq<u8>,
}

#[derive(Clone, Debug)]
pub struct MailAccountV2RegisterEventCustom {
    pub owner: Pubkey,
    pub account: Pubkey,
}

impl MailAccountV2RegisterEventCustom {
    pub open spec fn wf(&self) -> bool {
        self.owner.wf() && self.account.wf()
    }
}

impl View for MailAccountV2RegisterEventCustom {
    type V = MailAccountV2RegisterEventView;

    open spec fn view(&self) -> MailAccountV2RegisterEventView {
        MailAccountV2RegisterEventView { owner: self.owner@, account: self.account@ }
    }
}

pub struct MailAccountV2UpdateEventView {
    pub owner: Seq<u8>,
    pub account: Seq<u8>,
}

#[derive(Clone, Debug)]
pub struct MailAccountV2UpdateEventCustom {
    pub owner: Pubkey,
    pub account: Pubkey,
}

impl MailAccountV2UpdateEventCustom {
    pub open spec fn wf(&self) -> bool {
        self.owner.wf() && self.account.wf()
    }
}

impl View for MailAccountV2UpdateEventCustom {
    type V = MailAccountV2UpdateEventView;

    open spec fn view(&self) -> MailAccountV2UpdateEventView {
        MailAccountV2UpdateEventView { owner: self.owner@, account: self.account@ }
    }
}

// ============================================================================
// Instruction records
// ============================================================================

pub struct CreatemailView {
    pub subject: Seq<char>,
    pub from: Seq<u8>,
    pub to: Seq<u8>,
    pub salt: Seq<char>,
    pub iv: Seq<char>,
    pub version: Seq<char>,
    pub parent_id: Seq<char>,
}

#[derive(Clone, Debug)]
pub struct CreatemailCustom {
    pub subject: String,
    pub from: Pubkey,
    pub to: Pubkey,
    pub salt: String,
    pub iv: String,
    pub version: String,
    pub parent_id: String,
}

impl CreatemailCustom {
    pub open spec fn wf(&self) -> bool {
        self.from.wf() && self.to.wf()
    }
}

impl View for CreatemailCustom {
    type V = CreatemailView;

    open spec fn view(&self) -> CreatemailView {
        CreatemailView {
            subject: self.subject@,
            from: self.from@,
            to: self.to@,
            salt: self.salt@,
            iv: self.iv@,
            version: self.version@,
            parent_id: self.parent_id@,
        }
    }
}

pub struct UpdatemailView {
    pub body: Seq<char>,
}

#[derive(Clone, Debug)]
pub struct UpdatemailCustom {
    pub body: String,
}

impl View for UpdatemailCustom {
    type V = UpdatemailView;

    open spec fn view(&self) -> UpdatemailView {
        UpdatemailView { body: self.body@ }
    }
}

pub struct UpdatemailreadstatusView {}

#[derive(Clone, Debug)]
pub struct UpdatemailreadstatusCustom {}

impl View for UpdatemailreadstatusCustom {
    type V = UpdatemailreadstatusView;

    open spec fn view(&self) -> UpdatemailreadstatusView {
        UpdatemailreadstatusView {}
    }
}

pub struct UpdatemaillabelView {
    pub label: u32,
}

#[derive(Clone, Debug)]
pub struct UpdatemaillabelCustom {
    pub label: u32,
}

impl View for UpdatemaillabelCustom {
    type V = UpdatemaillabelView;

    open spec fn view(&self) -> UpdatemaillabelView {
        UpdatemaillabelView { label: self.label }
    }
}

pub struct RegisterV2View {
    pub nostr_key: Seq<char>,
}

#[derive(Clone, Debug)]
pub struct RegisterV2Custom {
    pub nostr_key: String,
}

impl View for RegisterV2Custom {
    type V = RegisterV2View;

    open spec fn view(&self) -> RegisterV2View {
        RegisterV2View { nostr_key: self.nostr_key@ }
    }
}

pub struct UpdateAccountV2View {
    pub nostr_key: Seq<char>,
    pub mailbox: Seq<u8>,
}

#[derive(Clone, Debug)]
pub struct UpdateAccountV2Custom {
    pub nostr_key: String,
    pub mailbox: Pubkey,
}

impl UpdateAccountV2Custom {
    pub open spec fn wf(&self) -> bool {
        self.mailbox.wf()
    }
}

impl View for UpdateAccountV2Custom {
    type V = UpdateAccountV2View;

    open spec fn view(&self) -> UpdateAccountV2View {
        UpdateAccountV2View { nostr_key: self.nostr_key@, mailbox: self.mailbox@ }
    }
}

pub struct SendmailView {
    pub subject: Seq<char>,
    pub body: Seq<char>,
    pub from: Seq<u8>,
    pub to: Seq<u8>,
    pub salt: Seq<char>,
    pub iv: Seq<char>,
    pub version: Seq<char>,
}

#[derive(Clone, Debug)]
pub struct SendmailCustom {
    pub subject: String,
    pub body: String,
    pub from: Pubkey,
    pub to: Pubkey,
    pub salt: String,
    pub iv: String,
    pub version: String,
}

impl SendmailCustom {
    pub open spec fn wf(&self) -> bool {
        self.from.wf() && self.to.wf()
    }
}

impl View for SendmailCustom {
    type V = SendmailView;

    open spec fn view(&self) -> SendmailView {
        SendmailView {
            subject: self.subject@,
            body: self.body@,
            from: self.from@,
            to: self.to@,
            salt: self.salt@,
            iv: self.iv@,
            version: self.version@,
        }
    }
}

pub struct RegisterView {
    pub nostr_key: Seq<char>,
}

#[derive(Clone, Debug)]
pub struct RegisterCustom {
    pub nostr_key: String,
}

impl View for RegisterCustom {
    type V = RegisterView;

    open spec fn view(&self) -> RegisterView {
        RegisterView { nostr_key: self.nostr_key@ }
    }
}

} // verus!
