//! Record decoders for the seven event types.  Each decoder composes the
//! field codec in the type's declared field order, fails as a unit when
//! any field read fails, and tolerates trailing unconsumed bytes.

use vstd::prelude::*;

use crate::errors::{DeserializationError, ErrorKind};
use crate::helpers::{parse_bool, parse_pubkey, parse_string, parse_u32};
use crate::helpers::{spec_parse_bool, spec_parse_key, spec_parse_string, spec_parse_u32};
use crate::types::{
    MailAccountV2RegisterEventCustom, MailAccountV2RegisterEventView,
    MailAccountV2UpdateEventCustom, MailAccountV2UpdateEventView, MailSendEventCustom,
    MailSendEventView, MailV2ReadEventCustom, MailV2ReadEventView, MailV2SendEventCustom,
    MailV2SendEventView, MailV2UpdateEventCustom, MailV2UpdateEventView,
    MailV2UpdateLabelEventCustom, MailV2UpdateLabelEventView,
};

verus! {

// ============================================================================
// Specification: field layout of each event type
// ============================================================================

/// Layout: from:key, to:key, id:text.
pub open spec fn spec_decode_mail_send_event(data: Seq<u8>) -> Result<
    MailSendEventView,
    ErrorKind,
> {
    match spec_parse_key(data, 0) {
        Err(k) => Err(k),
        Ok((from, o1)) => match spec_parse_key(data, o1) {
            Err(k) => Err(k),
            Ok((to, o2)) => match spec_parse_string(data, o2) {
                Err(k) => Err(k),
                Ok((id, _)) => Ok(MailSendEventView { from, to, id }),
            },
        },
    }
}

/// Layout: from:key, to:key, id:text, mailbox:key.
pub open spec fn spec_decode_mail_v2_send_event(data: Seq<u8>) -> Result<
    MailV2SendEventView,
    ErrorKind,
> {
    match spec_parse_key(data, 0) {
        Err(k) => Err(k),
        Ok((from, o1)) => match spec_parse_key(data, o1) {
            Err(k) => Err(k),
            Ok((to, o2)) => match spec_parse_string(data, o2) {
                Err(k) => Err(k),
                Ok((id, o3)) => match spec_parse_key(data, o3) {
                    Err(k) => Err(k),
                    Ok((mailbox, _)) => Ok(MailV2SendEventView { from, to, id, mailbox }),
                },
            },
        },
    }
}

/// Layout: from:key, to:key, id:text, mailbox:key, parent_id:text,
/// mark_as_read:bool, created_at:u32, subject:text, body:text,
/// authority:key, iv:text, salt:text, version:text.
pub open spec fn spec_decode_mail_v2_update_event(data: Seq<u8>) -> Result<
    MailV2UpdateEventView,
    ErrorKind,
> {
    match spec_parse_key(data, 0) {
        Err(k) => Err(k),
        Ok((from, o1)) => match spec_parse_key(data, o1) {
            Err(k) => Err(k),
            Ok((to, o2)) => match spec_parse_string(data, o2) {
                Err(k) => Err(k),
                Ok((id, o3)) => match spec_parse_key(data, o3) {
                    Err(k) => Err(k),
                    Ok((mailbox, o4)) => match spec_parse_string(data, o4) {
                        Err(k) => Err(k),
                        Ok((parent_id, o5)) => match spec_parse_bool(data, o5) {
                            Err(k) => Err(k),
                            Ok((mark_as_read, o6)) => match spec_parse_u32(data, o6) {
                                Err(k) => Err(k),
                                Ok((created_at, o7)) => match spec_parse_string(data, o7) {
                                    Err(k) => Err(k),
                                    Ok((subject, o8)) => match spec_parse_string(data, o8) {
                                        Err(k) => Err(k),
                                        Ok((body, o9)) => match spec_parse_key(data, o9) {
                                            Err(k) => Err(k),
                                            Ok((authority, o10)) => match spec_parse_string(
                                                data,
                                                o10,
                                            ) {
                                                Err(k) => Err(k),
                                                Ok((iv, o11)) => match spec_parse_string(
                                                    data,
                                                    o11,
                                                ) {
                                                    Err(k) => Err(k),
                                                    Ok((salt, o12)) => match spec_parse_string(
                                                        data,
                                                        o12,
                                                    ) {
                                                        Err(k) => Err(k),
                                                        Ok(
                                                            (version, _),
                                                        ) => Ok(
                                                            MailV2UpdateEventView {
                                                                from,
                                                                to,
                                                                id,
                                                                mailbox,
                                                                parent_id,
                                                                mark_as_read,
                                                                created_at,
                                                                subject,
                                                                body,
                                                                authority,
                                                                iv,
                                                                salt,
                                                                version,
                                                            },
                                                        ),
                                                    },
                                                },
                                            },
                                        },
                                    },
                                },
                            },
                        },
                    },
                },
            },
        },
    }
}

/// Layout: id:text, owner:key.
pub open spec fn spec_decode_mail_v2_read_event(data: Seq<u8>) -> Result<
    MailV2ReadEventView,
    ErrorKind,
> {
    match spec_parse_string(data, 0) {
        Err(k) => Err(k),
        Ok((id, o1)) => match spec_parse_key(data, o1) {
            Err(k) => Err(k),
            Ok((owner, _)) => Ok(MailV2ReadEventView { id, owner }),
        },
    }
}

/// Layout: id:text, owner:key.
pub open spec fn spec_decode_mail_v2_update_label_event(data: Seq<u8>) -> Result<
    MailV2UpdateLabelEventView,
    ErrorKind,
> {
    match spec_parse_string(data, 0) {
        Err(k) => Err(k),
        Ok((id, o1)) => match spec_parse_key(data, o1) {
            Err(k) => Err(k),
            Ok((owner, _)) => Ok(MailV2UpdateLabelEventView { id, owner }),
        },
    }
}

/// Layout: owner:key, account:key.
pub open spec fn spec_decode_mail_account_v2_register_event(data: Seq<u8>) -> Result<
    MailAccountV2RegisterEventView,
    ErrorKind,
> {
    match spec_parse_key(data, 0) {
        Err(k) => Err(k),
        Ok((owner, o1)) => match spec_parse_key(data, o1) {
            Err(k) => Err(k),
            Ok((account, _)) => Ok(MailAccountV2RegisterEventView { owner, account }),
        },
    }
}

/// Layout: owner:key, account:key.
pub open spec fn spec_decode_mail_account_v2_update_event(data: Seq<u8>) -> Result<
    MailAccountV2UpdateEventView,
    ErrorKind,
> {
    match spec_parse_key(data, 0) {
        Err(k) => Err(k),
        Ok((owner, o1)) => match spec_parse_key(data, o1) {
            Err(k) => Err(k),
            Ok((account, _)) => Ok(MailAccountV2UpdateEventView { owner, account }),
        },
    }
}

// ============================================================================
// Executable decoders
// ============================================================================

/// Deserialize MailSendEvent from binary data.
pub fn deserialize_mail_send_event(data: &[u8]) -> (r: Result<
    MailSendEventCustom,
    DeserializationError,
>)
    ensures
        ({
            let sp = spec_decode_mail_send_event(data@);
            match r {
                Ok(rec) => sp is Ok && rec@ == sp->Ok_0 && rec.wf(),
                Err(e) => sp is Err && e.kind == sp->Err_0,
            }
        }),
{
    let mut offset: usize = 0;
    let from = match parse_pubkey(data, &mut offset) {
        Ok(v) => v,
        Err(e) => { return Err(e); },
    };
    let to = match parse_pubkey(data, &mut offset) {
        Ok(v) => v,
        Err(e) => { return Err(e); },
    };
    let id = match parse_string(data, &mut offset) {
        Ok(v) => v,
        Err(e) => { return Err(e); },
    };
    Ok(MailSendEventCustom { from, to, id })
}

/// Deserialize MailV2SendEvent from binary data.
pub fn deserialize_mail_v2_send_event(data: &[u8]) -> (r: Result<
    MailV2SendEventCustom,
    DeserializationError,
>)
    ensures
        ({
            let sp = spec_decode_mail_v2_send_event(data@);
            match r {
                Ok(rec) => sp is Ok && rec@ == sp->Ok_0 && rec.wf(),
                Err(e) => sp is Err && e.kind == sp->Err_0,
            }
        }),
{
    let mut offset: usize = 0;
    let from = match parse_pubkey(data, &mut offset) {
        Ok(v) => v,
        Err(e) => { return Err(e); },
    };
    let to = match parse_pubkey(data, &mut offset) {
        Ok(v) => v,
        Err(e) => { return Err(e); },
    };
    let id = match parse_string(data, &mut offset) {
        Ok(v) => v,
        Err(e) => { return Err(e); },
    };
    let mailbox = match parse_pubkey(data, &mut offset) {
        Ok(v) => v,
        Err(e) => { return Err(e); },
    };
    Ok(MailV2SendEventCustom { from, to, id, mailbox })
}

/// Deserialize MailV2UpdateEvent from binary data.
pub fn deserialize_mail_v2_update_event(data: &[u8]) -> (r: Result<
    MailV2UpdateEventCustom,
    DeserializationError,
>)
    ensures
        ({
            let sp = spec_decode_mail_v2_update_event(data@);
            match r {
                Ok(rec) => sp is Ok && rec@ == sp->Ok_0 && rec.wf(),
                Err(e) => sp is Err && e.kind == sp->Err_0,
            }
        }),
{
    let mut offset: usize = 0;
    let from = match parse_pubkey(data, &mut offset) {
        Ok(v) => v,
        Err(e) => { return Err(e); },
    };
    let to = match parse_pubkey(data, &mut offset) {
        Ok(v) => v,
        Err(e) => { return Err(e); },
    };
    let id = match parse_string(data, &mut offset) {
        Ok(v) => v,
        Err(e) => { return Err(e); },
    };
    let mailbox = match parse_pubkey(data, &mut offset) {
        Ok(v) => v,
        Err(e) => { return Err(e); },
    };
    let parent_id = match parse_string(data, &mut offset) {
        Ok(v) => v,
        Err(e) => { return Err(e); },
    };
    let mark_as_read = match parse_bool(data, &mut offset) {
        Ok(v) => v,
        Err(e) => { return Err(e); },
    };
    let created_at = match parse_u32(data, &mut offset) {
        Ok(v) => v,
        Err(e) => { return Err(e); },
    };
    let subject = match parse_string(data, &mut offset) {
        Ok(v) => v,
        Err(e) => { return Err(e); },
    };
    let body = match parse_string(data, &mut offset) {
        Ok(v) => v,
        Err(e) => { return Err(e); },
    };
    let authority = match parse_pubkey(data, &mut offset) {
        Ok(v) => v,
        Err(e) => { return Err(e); },
    };
    let iv = match parse_string(data, &mut offset) {
        Ok(v) => v,
        Err(e) => { return Err(e); },
    };
    let salt = match parse_string(data, &mut offset) {
        Ok(v) => v,
        Err(e) => { return Err(e); },
    };
    let version = match parse_string(data, &mut offset) {
        Ok(v) => v,
        Err(e) => { return Err(e); },
    };
    Ok(MailV2UpdateEventCustom {
        from,
        to,
        id,
        mailbox,
        parent_id,
        mark_as_read,
        created_at,
        subject,
        body,
        authority,
        iv,
        salt,
        version,
    })
}

/// Deserialize MailV2ReadEvent from binary data.
pub fn deserialize_mail_v2_read_event(data: &[u8]) -> (r: Result<
    MailV2ReadEventCustom,
    DeserializationError,
>)
    ensures
        ({
            let sp = spec_decode_mail_v2_read_event(data@);
            match r {
                Ok(rec) => sp is Ok && rec@ == sp->Ok_0 && rec.wf(),
                Err(e) => sp is Err && e.kind == sp->Err_0,
            }
        }),
{
    let mut offset: usize = 0;
    let id = match parse_string(data, &mut offset) {
        Ok(v) => v,
        Err(e) => { return Err(e); },
    };
    let owner = match parse_pubkey(data, &mut offset) {
        Ok(v) => v,
        Err(e) => { return Err(e); },
    };
    Ok(MailV2ReadEventCustom { id, owner })
}

/// Deserialize MailV2UpdateLabelEvent from binary data.
pub fn deserialize_mail_v2_update_label_event(data: &[u8]) -> (r: Result<
    MailV2UpdateLabelEventCustom,
    DeserializationError,
>)
    ensures
        ({
            let sp = spec_decode_mail_v2_update_label_event(data@);
            match r {
                Ok(rec) => sp is Ok && rec@ == sp->Ok_0 && rec.wf(),
                Err(e) => sp is Err && e.kind == sp->Err_0,
            }
        }),
{
    let mut offset: usize = 0;
    let id = match parse_string(data, &mut offset) {
        Ok(v) => v,
        Err(e) => { return Err(e); },
    };
    let owner = match parse_pubkey(data, &mut offset) {
        Ok(v) => v,
        Err(e) => { return Err(e); },
    };
    Ok(MailV2UpdateLabelEventCustom { id, owner })
}

/// Deserialize MailAccountV2RegisterEvent from binary data.
pub fn deserialize_mail_account_v2_register_event(data: &[u8]) -> (r: Result<
    MailAccountV2RegisterEventCustom,
    DeserializationError,
>)
    ensures
        ({
            let sp = spec_decode_mail_account_v2_register_event(data@);
            match r {
                Ok(rec) => sp is Ok && rec@ == sp->Ok_0 && rec.wf(),
                Err(e) => sp is Err && e.kind == sp->Err_0,
            }
        }),
{
    let mut offset: usize = 0;
    let owner = match parse_pubkey(data, &mut offset) {
        Ok(v) => v,
        Err(e) => { return Err(e); },
    };
    let account = match parse_pubkey(data, &mut offset) {
        Ok(v) => v,
        Err(e) => { return Err(e); },
    };
    Ok(MailAccountV2RegisterEventCustom { owner, account })
}

/// Deserialize MailAccountV2UpdateEvent from binary data.
pub fn deserialize_mail_account_v2_update_event(data: &[u8]) -> (r: Result<
    MailAccountV2UpdateEventCustom,
    DeserializationError,
>)
    ensures
        ({
            let sp = spec_decode_mail_account_v2_update_event(data@);
            match r {
                Ok(rec) => sp is Ok && rec@ == sp->Ok_0 && rec.wf(),
                Err(e) => sp is Err && e.kind == sp->Err_0,
            }
        }),
{
    let mut offset: usize = 0;
    let owner = match parse_pubkey(data, &mut offset) {
        Ok(v) => v,
        Err(e) => { return Err(e); },
    };
    let account = match parse_pubkey(data, &mut offset) {
        Ok(v) => v,
        Err(e) => { return Err(e); },
    };
    Ok(MailAccountV2UpdateEventCustom { owner, account })
}

} // verus!
