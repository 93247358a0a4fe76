//! The discriminator dispatcher: the static table of 8-byte type tags and
//! the dispatch that routes a payload to the decoder owning its tag.
//!
//! A payload shorter than 8 bytes, one whose tag is in no table, and one
//! whose matched decoder rejects it all yield "no match" — a normal skip
//! signal, not an error.  No two record types share a tag.

use vstd::prelude::*;

use crate::events::{
    deserialize_mail_account_v2_register_event, deserialize_mail_account_v2_update_event,
    deserialize_mail_send_event, deserialize_mail_v2_read_event, deserialize_mail_v2_send_event,
    deserialize_mail_v2_update_event, deserialize_mail_v2_update_label_event,
    spec_decode_mail_account_v2_register_event, spec_decode_mail_account_v2_update_event,
    spec_decode_mail_send_event, spec_decode_mail_v2_read_event, spec_decode_mail_v2_send_event,
    spec_decode_mail_v2_update_event, spec_decode_mail_v2_update_label_event,
};
use crate::instructions::{
    deserialize_createmail_instruction, deserialize_register_instruction,
    deserialize_register_v2_instruction, deserialize_sendmail_instruction,
    deserialize_update_account_v2_instruction, deserialize_updatemail_instruction,
    deserialize_updatemaillabel_instruction, deserialize_updatemailreadstatus_instruction,
    spec_decode_createmail_instruction, spec_decode_register_instruction,
    spec_decode_register_v2_instruction, spec_decode_sendmail_instruction,
    spec_decode_update_account_v2_instruction, spec_decode_updatemail_instruction,
    spec_decode_updatemaillabel_instruction, spec_decode_updatemailreadstatus_instruction,
};
use crate::types::{
    CreatemailCustom, CreatemailView, MailAccountV2RegisterEventCustom,
    MailAccountV2RegisterEventView, MailAccountV2UpdateEventCustom, MailAccountV2UpdateEventView,
    MailSendEventCustom, MailSendEventView, MailV2ReadEventCustom, MailV2ReadEventView,
    MailV2SendEventCustom, MailV2SendEventView, MailV2UpdateEventCustom, MailV2UpdateEventView,
    MailV2UpdateLabelEventCustom, MailV2UpdateLabelEventView, RegisterCustom, RegisterV2Custom,
    RegisterV2View, RegisterView, SendmailCustom, SendmailView, UpdateAccountV2Custom,
    UpdateAccountV2View, UpdatemailCustom, UpdatemailView, UpdatemaillabelCustom,
    UpdatemaillabelView, UpdatemailreadstatusCustom, UpdatemailreadstatusView,
};

verus! {

// ============================================================================
// The static type-tag table
// ============================================================================

pub open spec fn mail_send_event_tag() -> Seq<u8> {
    seq![246u8, 25u8, 155u8, 65u8, 156u8, 90u8, 174u8, 160u8]
}

pub open spec fn mail_v2_send_event_tag() -> Seq<u8> {
    seq![57u8, 95u8, 119u8, 238u8, 197u8, 56u8, 38u8, 155u8]
}

pub open spec fn mail_v2_update_event_tag() -> Seq<u8> {
    seq![224u8, 123u8, 44u8, 76u8, 87u8, 109u8, 105u8, 110u8]
}

pub open spec fn mail_v2_read_event_tag() -> Seq<u8> {
    seq![185u8, 241u8, 60u8, 172u8, 90u8, 110u8, 65u8, 90u8]
}

pub open spec fn mail_v2_update_label_event_tag() -> Seq<u8> {
    seq![25u8, 155u8, 115u8, 145u8, 193u8, 110u8, 174u8, 83u8]
}

pub open spec fn mail_account_v2_register_event_tag() -> Seq<u8> {
    seq![250u8, 87u8, 69u8, 103u8, 135u8, 185u8, 177u8, 156u8]
}

pub open spec fn mail_account_v2_update_event_tag() -> Seq<u8> {
    seq![239u8, 63u8, 234u8, 251u8, 172u8, 161u8, 13u8, 162u8]
}

pub open spec fn createmail_instruction_tag() -> Seq<u8> {
    seq![79u8, 186u8, 79u8, 109u8, 12u8, 168u8, 250u8, 107u8]
}

pub open spec fn updatemail_instruction_tag() -> Seq<u8> {
    seq![103u8, 89u8, 239u8, 89u8, 179u8, 196u8, 168u8, 188u8]
}

pub open spec fn updatemailreadstatus_instruction_tag() -> Seq<u8> {
    seq![22u8, 58u8, 187u8, 161u8, 225u8, 237u8, 130u8, 155u8]
}

pub open spec fn updatemaillabel_instruction_tag() -> Seq<u8> {
    seq![127u8, 96u8, 27u8, 207u8, 164u8, 210u8, 203u8, 16u8]
}

pub open spec fn register_v2_instruction_tag() -> Seq<u8> {
    seq![225u8, 250u8, 193u8, 26u8, 37u8, 179u8, 205u8, 76u8]
}

pub open spec fn update_account_v2_instruction_tag() -> Seq<u8> {
    seq![207u8, 128u8, 25u8, 128u8, 97u8, 131u8, 11u8, 255u8]
}

pub open spec fn sendmail_instruction_tag() -> Seq<u8> {
    seq![254u8, 11u8, 16u8, 48u8, 131u8, 123u8, 30u8, 181u8]
}

pub open spec fn register_instruction_tag() -> Seq<u8> {
    seq![211u8, 124u8, 67u8, 15u8, 211u8, 194u8, 178u8, 240u8]
}

/// The combined table: the seven event tags followed by the eight
/// instruction tags, in dispatch order.
pub open spec fn all_tags() -> Seq<Seq<u8>> {
    seq![
        mail_send_event_tag(),
        mail_v2_send_event_tag(),
        mail_v2_update_event_tag(),
        mail_v2_read_event_tag(),
        mail_v2_update_label_event_tag(),
        mail_account_v2_register_event_tag(),
        mail_account_v2_update_event_tag(),
        createmail_instruction_tag(),
        updatemail_instruction_tag(),
        updatemailreadstatus_instruction_tag(),
        updatemaillabel_instruction_tag(),
        register_v2_instruction_tag(),
        update_account_v2_instruction_tag(),
        sendmail_instruction_tag(),
        register_instruction_tag(),
    ]
}

// ============================================================================
// Uniqueness of the tags
// ============================================================================

/// True when `t` differs from every element of `tags`.
pub open spec fn tag_absent(tags: Seq<Seq<u8>>, t: Seq<u8>) -> bool
    decreases tags.len(),
{
    if tags.len() == 0 {
        true
    } else {
        tags[0] != t && tag_absent(tags.skip(1), t)
    }
}

/// True when no element of `tags` repeats.
pub open spec fn tags_distinct(tags: Seq<Seq<u8>>) -> bool
    decreases tags.len(),
{
    if tags.len() == 0 {
        true
    } else {
        tag_absent(tags.skip(1), tags[0]) && tags_distinct(tags.skip(1))
    }
}

proof fn lemma_tag_absent_index(tags: Seq<Seq<u8>>, t: Seq<u8>, i: int)
    requires
        tag_absent(tags, t),
        0 <= i < tags.len(),
    ensures
        tags[i] != t,
    decreases tags.len(),
{
    if i > 0 {
        lemma_tag_absent_index(tags.skip(1), t, i - 1);
    }
}

proof fn lemma_tags_distinct_index(tags: Seq<Seq<u8>>, i: int, j: int)
    requires
        tags_distinct(tags),
        0 <= i < j < tags.len(),
    ensures
        tags[i] != tags[j],
    decreases tags.len(),
{
    if i == 0 {
        lemma_tag_absent_index(tags.skip(1), tags[0], j - 1);
    } else {
        lemma_tags_distinct_index(tags.skip(1), i - 1, j - 1);
    }
}

/// The first byte of each tag, which already separates all fifteen.
proof fn lemma_tag_first_bytes()
    ensures
        mail_send_event_tag()[0] == 246,
        mail_v2_send_event_tag()[0] == 57,
        mail_v2_update_event_tag()[0] == 224,
        mail_v2_read_event_tag()[0] == 185,
        mail_v2_update_label_event_tag()[0] == 25,
        mail_account_v2_register_event_tag()[0] == 250,
        mail_account_v2_update_event_tag()[0] == 239,
        createmail_instruction_tag()[0] == 79,
        updatemail_instruction_tag()[0] == 103,
        updatemailreadstatus_instruction_tag()[0] == 22,
        updatemaillabel_instruction_tag()[0] == 127,
        register_v2_instruction_tag()[0] == 225,
        update_account_v2_instruction_tag()[0] == 207,
        sendmail_instruction_tag()[0] == 254,
        register_instruction_tag()[0] == 211,
{
}

/// The whole table is free of repeats.
#[verifier::rlimit(100)]
proof fn lemma_table_distinct()
    ensures
        tags_distinct(all_tags()),
{
    reveal_with_fuel(tags_distinct, 16);
    reveal_with_fuel(tag_absent, 16);
    lemma_tag_first_bytes();
    assert(all_tags()[0] == mail_send_event_tag());
    assert(all_tags()[1] == mail_v2_send_event_tag());
    assert(all_tags()[2] == mail_v2_update_event_tag());
    assert(all_tags()[3] == mail_v2_read_event_tag());
    assert(all_tags()[4] == mail_v2_update_label_event_tag());
    assert(all_tags()[5] == mail_account_v2_register_event_tag());
    assert(all_tags()[6] == mail_account_v2_update_event_tag());
    assert(all_tags()[7] == createmail_instruction_tag());
    assert(all_tags()[8] == updatemail_instruction_tag());
    assert(all_tags()[9] == updatemailreadstatus_instruction_tag());
    assert(all_tags()[10] == updatemaillabel_instruction_tag());
    assert(all_tags()[11] == register_v2_instruction_tag());
    assert(all_tags()[12] == update_account_v2_instruction_tag());
    assert(all_tags()[13] == sendmail_instruction_tag());
    assert(all_tags()[14] == register_instruction_tag());
}

/// Discriminator uniqueness: no two of the fifteen record types share a
/// type tag — any 8-byte value matches at most one entry of the table.
pub proof fn lemma_no_two_types_share_a_tag(i: int, j: int)
    requires
        0 <= i < all_tags().len(),
        0 <= j < all_tags().len(),
        i != j,
    ensures
        all_tags()[i] != all_tags()[j],
{
    lemma_table_distinct();
    if i < j {
        lemma_tags_distinct_index(all_tags(), i, j);
    } else {
        lemma_tags_distinct_index(all_tags(), j, i);
    }
}

/// Names each entry of the table and restates uniqueness in quantified
/// form, for the dispatch lemmas below.
proof fn lemma_all_tags_facts()
    ensures
        forall|i: int, j: int|
            #![trigger all_tags()[i], all_tags()[j]]
            0 <= i < all_tags().len() && 0 <= j < all_tags().len() && i != j ==> all_tags()[i]
                != all_tags()[j],
        all_tags()[0] == mail_send_event_tag(),
        all_tags()[1] == mail_v2_send_event_tag(),
        all_tags()[2] == mail_v2_update_event_tag(),
        all_tags()[3] == mail_v2_read_event_tag(),
        all_tags()[4] == mail_v2_update_label_event_tag(),
        all_tags()[5] == mail_account_v2_register_event_tag(),
        all_tags()[6] == mail_account_v2_update_event_tag(),
        all_tags()[7] == createmail_instruction_tag(),
        all_tags()[8] == updatemail_instruction_tag(),
        all_tags()[9] == updatemailreadstatus_instruction_tag(),
        all_tags()[10] == updatemaillabel_instruction_tag(),
        all_tags()[11] == register_v2_instruction_tag(),
        all_tags()[12] == update_account_v2_instruction_tag(),
        all_tags()[13] == sendmail_instruction_tag(),
        all_tags()[14] == register_instruction_tag(),
{
    assert forall|i: int, j: int|
        #![trigger all_tags()[i], all_tags()[j]]
        0 <= i < all_tags().len() && 0 <= j < all_tags().len() && i != j implies all_tags()[i]
        != all_tags()[j] by {
        lemma_no_two_types_share_a_tag(i, j);
    }
}

// ============================================================================
// Typed records: the closed union over the fifteen record types
// ============================================================================

/// Ghost value of a decoded event record, tagged by its type.
pub enum EventRecordView {
    SendMail(MailSendEventView),
    V2Send(MailV2SendEventView),
    V2Update(MailV2UpdateEventView),
    V2Read(MailV2ReadEventView),
    V2UpdateLabel(MailV2UpdateLabelEventView),
    AccountV2Register(MailAccountV2RegisterEventView),
    AccountV2Update(MailAccountV2UpdateEventView),
}

/// A decoded event record, tagged by its type.
#[derive(Clone, Debug)]
pub enum EventRecord {
    SendMail(MailSendEventCustom),
    V2Send(MailV2SendEventCustom),
    V2Update(MailV2UpdateEventCustom),
    V2Read(MailV2ReadEventCustom),
    V2UpdateLabel(MailV2UpdateLabelEventCustom),
    AccountV2Register(MailAccountV2RegisterEventCustom),
    AccountV2Update(MailAccountV2UpdateEventCustom),
}

impl EventRecord {
    pub open spec fn wf(&self) -> bool {
        match self {
            EventRecord::SendMail(r) => r.wf(),
            EventRecord::V2Send(r) => r.wf(),
            EventRecord::V2Update(r) => r.wf(),
            EventRecord::V2Read(r) => r.wf(),
            EventRecord::V2UpdateLabel(r) => r.wf(),
            EventRecord::AccountV2Register(r) => r.wf(),
            EventRecord::AccountV2Update(r) => r.wf(),
        }
    }
}

impl View for EventRecord {
    type V = EventRecordView;

    open spec fn view(&self) -> EventRecordView {
        match self {
            EventRecord::SendMail(r) => EventRecordView::SendMail(r@),
            EventRecord::V2Send(r) => EventRecordView::V2Send(r@),
            EventRecord::V2Update(r) => EventRecordView::V2Update(r@),
            EventRecord::V2Read(r) => EventRecordView::V2Read(r@),
            EventRecord::V2UpdateLabel(r) => EventRecordView::V2UpdateLabel(r@),
            EventRecord::AccountV2Register(r) => EventRecordView::AccountV2Register(r@),
            EventRecord::AccountV2Update(r) => EventRecordView::AccountV2Update(r@),
        }
    }
}

/// Ghost value of a decoded instruction record, tagged by its type.
pub enum InstructionRecordView {
    Createmail(CreatemailView),
    Updatemail(UpdatemailView),
    Updatemailreadstatus(UpdatemailreadstatusView),
    Updatemaillabel(UpdatemaillabelView),
    RegisterV2(RegisterV2View),
    UpdateAccountV2(UpdateAccountV2View),
    Sendmail(SendmailView),
    Register(RegisterView),
}

/// A decoded instruction record, tagged by its type.
#[derive(Clone, Debug)]
pub enum InstructionRecord {
    Createmail(CreatemailCustom),
    Updatemail(UpdatemailCustom),
    Updatemailreadstatus(UpdatemailreadstatusCustom),
    Updatemaillabel(UpdatemaillabelCustom),
    RegisterV2(RegisterV2Custom),
    UpdateAccountV2(UpdateAccountV2Custom),
    Sendmail(SendmailCustom),
    Register(RegisterCustom),
}

impl InstructionRecord {
    pub open spec fn wf(&self) -> bool {
        match self {
            InstructionRecord::Createmail(r) => r.wf(),
            InstructionRecord::UpdateAccountV2(r) => r.wf(),
            InstructionRecord::Sendmail(r) => r.wf(),
            _ => true,
        }
    }
}

impl View for InstructionRecord {
    type V = InstructionRecordView;

    open spec fn view(&self) -> InstructionRecordView {
        match self {
            InstructionRecord::Createmail(r) => InstructionRecordView::Createmail(r@),
            InstructionRecord::Updatemail(r) => InstructionRecordView::Updatemail(r@),
            InstructionRecord::Updatemailreadstatus(r) => InstructionRecordView::Updatemailreadstatus(r@),
            InstructionRecord::Updatemaillabel(r) => InstructionRecordView::Updatemaillabel(r@),
            InstructionRecord::RegisterV2(r) => InstructionRecordView::RegisterV2(r@),
            InstructionRecord::UpdateAccountV2(r) => InstructionRecordView::UpdateAccountV2(r@),
            InstructionRecord::Sendmail(r) => InstructionRecordView::Sendmail(r@),
            InstructionRecord::Register(r) => InstructionRecordView::Register(r@),
        }
    }
}

// ============================================================================
// Specification of dispatch
// ============================================================================

/// What dispatching a log payload yields: `None` when the payload is
/// shorter than the 8-byte tag, when the tag matches no event type, or
/// when the matched decoder rejects the remaining bytes; otherwise the
/// decoded record of the type owning the tag.
pub open spec fn spec_dispatch_event(payload: Seq<u8>) -> Option<EventRecordView> {
    if payload.len() < 8 {
        None
    } else {
        let tag = payload.subrange(0, 8);
        let body = payload.subrange(8, payload.len() as int);
        if tag == mail_send_event_tag() {
            match spec_decode_mail_send_event(body) {
                Ok(v) => Some(EventRecordView::SendMail(v)),
                Err(_) => None,
            }
        } else if tag == mail_v2_send_event_tag() {
            match spec_decode_mail_v2_send_event(body) {
                Ok(v) => Some(EventRecordView::V2Send(v)),
                Err(_) => None,
            }
        } else if tag == mail_v2_update_event_tag() {
            match spec_decode_mail_v2_update_event(body) {
                Ok(v) => Some(EventRecordView::V2Update(v)),
                Err(_) => None,
            }
        } else if tag == mail_v2_read_event_tag() {
            match spec_decode_mail_v2_read_event(body) {
                Ok(v) => Some(EventRecordView::V2Read(v)),
                Err(_) => None,
            }
        } else if tag == mail_v2_update_label_event_tag() {
            match spec_decode_mail_v2_update_label_event(body) {
                Ok(v) => Some(EventRecordView::V2UpdateLabel(v)),
                Err(_) => None,
            }
        } else if tag == mail_account_v2_register_event_tag() {
            match spec_decode_mail_account_v2_register_event(body) {
                Ok(v) => Some(EventRecordView::AccountV2Register(v)),
                Err(_) => None,
            }
        } else if tag == mail_account_v2_update_event_tag() {
            match spec_decode_mail_account_v2_update_event(body) {
                Ok(v) => Some(EventRecordView::AccountV2Update(v)),
                Err(_) => None,
            }
        } else {
            None
        }
    }
}

/// What dispatching an instruction's data yields, over the eight
/// instruction tags; otherwise as for events.
pub open spec fn spec_dispatch_instruction(payload: Seq<u8>) -> Option<InstructionRecordView> {
    if payload.len() < 8 {
        None
    } else {
        let tag = payload.subrange(0, 8);
        let body = payload.subrange(8, payload.len() as int);
        if tag == createmail_instruction_tag() {
            match spec_decode_createmail_instruction(body) {
                Ok(v) => Some(InstructionRecordView::Createmail(v)),
                Err(_) => None,
            }
        } else if tag == updatemail_instruction_tag() {
            match spec_decode_updatemail_instruction(body) {
                Ok(v) => Some(InstructionRecordView::Updatemail(v)),
                Err(_) => None,
            }
        } else if tag == updatemailreadstatus_instruction_tag() {
            match spec_decode_updatemailreadstatus_instruction(body) {
                Ok(v) => Some(InstructionRecordView::Updatemailreadstatus(v)),
                Err(_) => None,
            }
        } else if tag == updatemaillabel_instruction_tag() {
            match spec_decode_updatemaillabel_instruction(body) {
                Ok(v) => Some(InstructionRecordView::Updatemaillabel(v)),
                Err(_) => None,
            }
        } else if tag == register_v2_instruction_tag() {
            match spec_decode_register_v2_instruction(body) {
                Ok(v) => Some(InstructionRecordView::RegisterV2(v)),
                Err(_) => None,
            }
        } else if tag == update_account_v2_instruction_tag() {
            match spec_decode_update_account_v2_instruction(body) {
                Ok(v) => Some(InstructionRecordView::UpdateAccountV2(v)),
                Err(_) => None,
            }
        } else if tag == sendmail_instruction_tag() {
            match spec_decode_sendmail_instruction(body) {
                Ok(v) => Some(InstructionRecordView::Sendmail(v)),
                Err(_) => None,
            }
        } else if tag == register_instruction_tag() {
            match spec_decode_register_instruction(body) {
                Ok(v) => Some(InstructionRecordView::Register(v)),
                Err(_) => None,
            }
        } else {
            None
        }
    }
}

// ============================================================================
// Executable dispatch
// ============================================================================

/// Compares two byte slices for equality.
pub fn bytes_eq(a: &[u8], b: &[u8]) -> (r: bool)
    ensures
        r == (a@ == b@),
{
    if a.len() != b.len() {
        return false;
    }
    let mut i: usize = 0;
    while i < a.len()
        invariant
            i <= a@.len(),
            a@.len() == b@.len(),
            forall|j: int| 0 <= j < i ==> a@[j] == b@[j],
        decreases a@.len() - i,
    {
        if a[i] != b[i] {
            return false;
        }
        i = i + 1;
    }
    proof {
        assert(a@ =~= b@);
    }
    true
}

fn mail_send_event_tag_exec() -> (r: Vec<u8>)
    ensures
        r@ == mail_send_event_tag(),
{
    let r = vec![246u8, 25u8, 155u8, 65u8, 156u8, 90u8, 174u8, 160u8];
    proof {
        assert(r@ =~= mail_send_event_tag());
    }
    r
}

fn mail_v2_send_event_tag_exec() -> (r: Vec<u8>)
    ensures
        r@ == mail_v2_send_event_tag(),
{
    let r = vec![57u8, 95u8, 119u8, 238u8, 197u8, 56u8, 38u8, 155u8];
    proof {
        assert(r@ =~= mail_v2_send_event_tag());
    }
    r
}

fn mail_v2_update_event_tag_exec() -> (r: Vec<u8>)
    ensures
        r@ == mail_v2_update_event_tag(),
{
    let r = vec![224u8, 123u8, 44u8, 76u8, 87u8, 109u8, 105u8, 110u8];
    proof {
        assert(r@ =~= mail_v2_update_event_tag());
    }
    r
}

fn mail_v2_read_event_tag_exec() -> (r: Vec<u8>)
    ensures
        r@ == mail_v2_read_event_tag(),
{
    let r = vec![185u8, 241u8, 60u8, 172u8, 90u8, 110u8, 65u8, 90u8];
    proof {
        assert(r@ =~= mail_v2_read_event_tag());
    }
    r
}

fn mail_v2_update_label_event_tag_exec() -> (r: Vec<u8>)
    ensures
        r@ == mail_v2_update_label_event_tag(),
{
    let r = vec![25u8, 155u8, 115u8, 145u8, 193u8, 110u8, 174u8, 83u8];
    proof {
        assert(r@ =~= mail_v2_update_label_event_tag());
    }
    r
}

fn mail_account_v2_register_event_tag_exec() -> (r: Vec<u8>)
    ensures
        r@ == mail_account_v2_register_event_tag(),
{
    let r = vec![250u8, 87u8, 69u8, 103u8, 135u8, 185u8, 177u8, 156u8];
    proof {
        assert(r@ =~= mail_account_v2_register_event_tag());
    }
    r
}

fn mail_account_v2_update_event_tag_exec() -> (r: Vec<u8>)
    ensures
        r@ == mail_account_v2_update_event_tag(),
{
    let r = vec![239u8, 63u8, 234u8, 251u8, 172u8, 161u8, 13u8, 162u8];
    proof {
        assert(r@ =~= mail_account_v2_update_event_tag());
    }
    r
}

fn createmail_instruction_tag_exec() -> (r: Vec<u8>)
    ensures
        r@ == createmail_instruction_tag(),
{
    let r = vec![79u8, 186u8, 79u8, 109u8, 12u8, 168u8, 250u8, 107u8];
    proof {
        assert(r@ =~= createmail_instruction_tag());
    }
    r
}

fn updatemail_instruction_tag_exec() -> (r: Vec<u8>)
    ensures
        r@ == updatemail_instruction_tag(),
{
    let r = vec![103u8, 89u8, 239u8, 89u8, 179u8, 196u8, 168u8, 188u8];
    proof {
        assert(r@ =~= updatemail_instruction_tag());
    }
    r
}

fn updatemailreadstatus_instruction_tag_exec() -> (r: Vec<u8>)
    ensures
        r@ == updatemailreadstatus_instruction_tag(),
{
    let r = vec![22u8, 58u8, 187u8, 161u8, 225u8, 237u8, 130u8, 155u8];
    proof {
        assert(r@ =~= updatemailreadstatus_instruction_tag());
    }
    r
}

fn updatemaillabel_instruction_tag_exec() -> (r: Vec<u8>)
    ensures
        r@ == updatemaillabel_instruction_tag(),
{
    let r = vec![127u8, 96u8, 27u8, 207u8, 164u8, 210u8, 203u8, 16u8];
    proof {
        assert(r@ =~= updatemaillabel_instruction_tag());
    }
    r
}

fn register_v2_instruction_tag_exec() -> (r: Vec<u8>)
    ensures
        r@ == register_v2_instruction_tag(),
{
    let r = vec![225u8, 250u8, 193u8, 26u8, 37u8, 179u8, 205u8, 76u8];
    proof {
        assert(r@ =~= register_v2_instruction_tag());
    }
    r
}

fn update_account_v2_instruction_tag_exec() -> (r: Vec<u8>)
    ensures
        r@ == update_account_v2_instruction_tag(),
{
    let r = vec![207u8, 128u8, 25u8, 128u8, 97u8, 131u8, 11u8, 255u8];
    proof {
        assert(r@ =~= update_account_v2_instruction_tag());
    }
    r
}

fn sendmail_instruction_tag_exec() -> (r: Vec<u8>)
    ensures
        r@ == sendmail_instruction_tag(),
{
    let r = vec![254u8, 11u8, 16u8, 48u8, 131u8, 123u8, 30u8, 181u8];
    proof {
        assert(r@ =~= sendmail_instruction_tag());
    }
    r
}

fn register_instruction_tag_exec() -> (r: Vec<u8>)
    ensures
        r@ == register_instruction_tag(),
{
    let r = vec![211u8, 124u8, 67u8, 15u8, 211u8, 194u8, 178u8, 240u8];
    proof {
        assert(r@ =~= register_instruction_tag());
    }
    r
}

/// Routes a log payload to the event decoder owning its leading 8-byte
/// tag.
pub fn dispatch_event(payload: &[u8]) -> (r: Option<EventRecord>)
    ensures
        ({
            let sp = spec_dispatch_event(payload@);
            match r {
                Some(rec) => sp == Some(rec@) && rec.wf(),
                None => sp is None,
            }
        }),
{
    if payload.len() < 8 {
        return None;
    }
    let tag = vstd::slice::slice_subrange(payload, 0, 8);
    let body = vstd::slice::slice_subrange(payload, 8, payload.len());
    if bytes_eq(tag, mail_send_event_tag_exec().as_slice()) {
        match deserialize_mail_send_event(body) {
            Ok(rec) => Some(EventRecord::SendMail(rec)),
            Err(_) => None,
        }
    } else if bytes_eq(tag, mail_v2_send_event_tag_exec().as_slice()) {
        match deserialize_mail_v2_send_event(body) {
            Ok(rec) => Some(EventRecord::V2Send(rec)),
            Err(_) => None,
        }
    } else if bytes_eq(tag, mail_v2_update_event_tag_exec().as_slice()) {
        match deserialize_mail_v2_update_event(body) {
            Ok(rec) => Some(EventRecord::V2Update(rec)),
            Err(_) => None,
        }
    } else if bytes_eq(tag, mail_v2_read_event_tag_exec().as_slice()) {
        match deserialize_mail_v2_read_event(body) {
            Ok(rec) => Some(EventRecord::V2Read(rec)),
            Err(_) => None,
        }
    } else if bytes_eq(tag, mail_v2_update_label_event_tag_exec().as_slice()) {
        match deserialize_mail_v2_update_label_event(body) {
            Ok(rec) => Some(EventRecord::V2UpdateLabel(rec)),
            Err(_) => None,
        }
    } else if bytes_eq(tag, mail_account_v2_register_event_tag_exec().as_slice()) {
        match deserialize_mail_account_v2_register_event(body) {
            Ok(rec) => Some(EventRecord::AccountV2Register(rec)),
            Err(_) => None,
        }
    } else if bytes_eq(tag, mail_account_v2_update_event_tag_exec().as_slice()) {
        match deserialize_mail_account_v2_update_event(body) {
            Ok(rec) => Some(EventRecord::AccountV2Update(rec)),
            Err(_) => None,
        }
    } else {
        None
    }
}

/// Routes an instruction's data to the instruction decoder owning its
/// leading 8-byte tag.
pub fn dispatch_instruction(payload: &[u8]) -> (r: Option<InstructionRecord>)
    ensures
        ({
            let sp = spec_dispatch_instruction(payload@);
            match r {
                Some(rec) => sp == Some(rec@) && rec.wf(),
                None => sp is None,
            }
        }),
{
    if payload.len() < 8 {
        return None;
    }
    let tag = vstd::slice::slice_subrange(payload, 0, 8);
    let body = vstd::slice::slice_subrange(payload, 8, payload.len());
    if bytes_eq(tag, createmail_instruction_tag_exec().as_slice()) {
        match deserialize_createmail_instruction(body) {
            Ok(rec) => Some(InstructionRecord::Createmail(rec)),
            Err(_) => None,
        }
    } else if bytes_eq(tag, updatemail_instruction_tag_exec().as_slice()) {
        match deserialize_updatemail_instruction(body) {
            Ok(rec) => Some(InstructionRecord::Updatemail(rec)),
            Err(_) => None,
        }
    } else if bytes_eq(tag, updatemailreadstatus_instruction_tag_exec().as_slice()) {
        match deserialize_updatemailreadstatus_instruction(body) {
            Ok(rec) => Some(InstructionRecord::Updatemailreadstatus(rec)),
            Err(_) => None,
        }
    } else if bytes_eq(tag, updatemaillabel_instruction_tag_exec().as_slice()) {
        match deserialize_updatemaillabel_instruction(body) {
            Ok(rec) => Some(InstructionRecord::Updatemaillabel(rec)),
            Err(_) => None,
        }
    } else if bytes_eq(tag, register_v2_instruction_tag_exec().as_slice()) {
        match deserialize_register_v2_instruction(body) {
            Ok(rec) => Some(InstructionRecord::RegisterV2(rec)),
            Err(_) => None,
        }
    } else if bytes_eq(tag, update_account_v2_instruction_tag_exec().as_slice()) {
        match deserialize_update_account_v2_instruction(body) {
            Ok(rec) => Some(InstructionRecord::UpdateAccountV2(rec)),
            Err(_) => None,
        }
    } else if bytes_eq(tag, sendmail_instruction_tag_exec().as_slice()) {
        match deserialize_sendmail_instruction(body) {
            Ok(rec) => Some(InstructionRecord::Sendmail(rec)),
            Err(_) => None,
        }
    } else if bytes_eq(tag, register_instruction_tag_exec().as_slice()) {
        match deserialize_register_instruction(body) {
            Ok(rec) => Some(InstructionRecord::Register(rec)),
            Err(_) => None,
        }
    } else {
        None
    }
}

// ============================================================================
// Dispatch totality
// ============================================================================

/// Dispatch totality over the seven event tags: a payload opening with a
/// known event tag is handled by exactly the decoder owning that tag — it
/// yields that decoder's record on success and nothing on failure.
#[verifier::rlimit(100)]
pub proof fn lemma_dispatch_event_known_tags(payload: Seq<u8>)
    requires
        payload.len() >= 8,
    ensures
        payload.subrange(0, 8) == mail_send_event_tag() ==> spec_dispatch_event(payload) == (
        match spec_decode_mail_send_event(payload.subrange(8, payload.len() as int)) {
            Ok(v) => Some(EventRecordView::SendMail(v)),
            Err(_) => None,
        }),
        payload.subrange(0, 8) == mail_v2_send_event_tag() ==> spec_dispatch_event(payload) == (
        match spec_decode_mail_v2_send_event(payload.subrange(8, payload.len() as int)) {
            Ok(v) => Some(EventRecordView::V2Send(v)),
            Err(_) => None,
        }),
        payload.subrange(0, 8) == mail_v2_update_event_tag() ==> spec_dispatch_event(payload) == (
        match spec_decode_mail_v2_update_event(payload.subrange(8, payload.len() as int)) {
            Ok(v) => Some(EventRecordView::V2Update(v)),
            Err(_) => None,
        }),
        payload.subrange(0, 8) == mail_v2_read_event_tag() ==> spec_dispatch_event(payload) == (
        match spec_decode_mail_v2_read_event(payload.subrange(8, payload.len() as int)) {
            Ok(v) => Some(EventRecordView::V2Read(v)),
            Err(_) => None,
        }),
        payload.subrange(0, 8) == mail_v2_update_label_event_tag() ==> spec_dispatch_event(payload)
            == (match spec_decode_mail_v2_update_label_event(
            payload.subrange(8, payload.len() as int),
        ) {
            Ok(v) => Some(EventRecordView::V2UpdateLabel(v)),
            Err(_) => None,
        }),
        payload.subrange(0, 8) == mail_account_v2_register_event_tag() ==> spec_dispatch_event(
            payload,
        ) == (match spec_decode_mail_account_v2_register_event(
            payload.subrange(8, payload.len() as int),
        ) {
            Ok(v) => Some(EventRecordView::AccountV2Register(v)),
            Err(_) => None,
        }),
        payload.subrange(0, 8) == mail_account_v2_update_event_tag() ==> spec_dispatch_event(
            payload,
        ) == (match spec_decode_mail_account_v2_update_event(
            payload.subrange(8, payload.len() as int),
        ) {
            Ok(v) => Some(EventRecordView::AccountV2Update(v)),
            Err(_) => None,
        }),
{
    lemma_all_tags_facts();
}

/// Dispatch totality over the eight instruction tags, as for events.
#[verifier::rlimit(100)]
pub proof fn lemma_dispatch_instruction_known_tags(payload: Seq<u8>)
    requires
        payload.len() >= 8,
    ensures
        payload.subrange(0, 8) == createmail_instruction_tag() ==> spec_dispatch_instruction(
            payload,
        ) == (match spec_decode_createmail_instruction(payload.subrange(8, payload.len() as int)) {
            Ok(v) => Some(InstructionRecordView::Createmail(v)),
            Err(_) => None,
        }),
        payload.subrange(0, 8) == updatemail_instruction_tag() ==> spec_dispatch_instruction(
            payload,
        ) == (match spec_decode_updatemail_instruction(payload.subrange(8, payload.len() as int)) {
            Ok(v) => Some(InstructionRecordView::Updatemail(v)),
            Err(_) => None,
        }),
        payload.subrange(0, 8) == updatemailreadstatus_instruction_tag()
            ==> spec_dispatch_instruction(payload) == (match spec_decode_updatemailreadstatus_instruction(
            payload.subrange(8, payload.len() as int),
        ) {
            Ok(v) => Some(InstructionRecordView::Updatemailreadstatus(v)),
            Err(_) => None,
        }),
        payload.subrange(0, 8) == updatemaillabel_instruction_tag() ==> spec_dispatch_instruction(
            payload,
        ) == (match spec_decode_updatemaillabel_instruction(
            payload.subrange(8, payload.len() as int),
        ) {
            Ok(v) => Some(InstructionRecordView::Updatemaillabel(v)),
            Err(_) => None,
        }),
        payload.subrange(0, 8) == register_v2_instruction_tag() ==> spec_dispatch_instruction(
            payload,
        ) == (match spec_decode_register_v2_instruction(payload.subrange(8, payload.len() as int)) {
            Ok(v) => Some(InstructionRecordView::RegisterV2(v)),
            Err(_) => None,
        }),
        payload.subrange(0, 8) == update_account_v2_instruction_tag()
            ==> spec_dispatch_instruction(payload) == (match spec_decode_update_account_v2_instruction(
            payload.subrange(8, payload.len() as int),
        ) {
            Ok(v) => Some(InstructionRecordView::UpdateAccountV2(v)),
            Err(_) => None,
        }),
        payload.subrange(0, 8) == sendmail_instruction_tag() ==> spec_dispatch_instruction(payload)
            == (match spec_decode_sendmail_instruction(payload.subrange(8, payload.len() as int)) {
            Ok(v) => Some(InstructionRecordView::Sendmail(v)),
            Err(_) => None,
        }),
        payload.subrange(0, 8) == register_instruction_tag() ==> spec_dispatch_instruction(payload)
            == (match spec_decode_register_instruction(payload.subrange(8, payload.len() as int)) {
            Ok(v) => Some(InstructionRecordView::Register(v)),
            Err(_) => None,
        }),
{
    lemma_all_tags_facts();
}

/// Dispatch totality, negative half: a payload whose tag stands in
/// neither table, or one shorter than the 8-byte tag, produces no record
/// under either dispatcher.
#[verifier::rlimit(100)]
pub proof fn lemma_dispatch_unknown_tag(payload: Seq<u8>)
    requires
        payload.len() >= 8 ==> tag_absent(all_tags(), payload.subrange(0, 8)),
    ensures
        spec_dispatch_event(payload) is None,
        spec_dispatch_instruction(payload) is None,
{
    if payload.len() >= 8 {
        let tag = payload.subrange(0, 8);
        assert forall|i: int| 0 <= i < all_tags().len() implies #[trigger] all_tags()[i] != tag by {
            lemma_tag_absent_index(all_tags(), tag, i);
        }
        lemma_all_tags_facts();
    }
}

} // verus!
