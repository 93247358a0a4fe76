//! Record decoders for the eight instruction types.  Each decoder composes
//! the field codec in the type's declared field order, fails as a unit when
//! any field read fails, and tolerates trailing unconsumed bytes.

use vstd::prelude::*;

use crate::errors::{DeserializationError, ErrorKind};
use crate::helpers::{parse_pubkey, parse_string, parse_u32};
use crate::helpers::{spec_parse_key, spec_parse_string, spec_parse_u32};
use crate::types::{
    CreatemailCustom, CreatemailView, RegisterCustom, RegisterV2Custom, RegisterV2View,
    RegisterView, SendmailCustom, SendmailView, UpdateAccountV2Custom, UpdateAccountV2View,
    UpdatemailCustom, UpdatemailView, UpdatemaillabelCustom, UpdatemaillabelView,
    UpdatemailreadstatusCustom, UpdatemailreadstatusView,
};

verus! {

// ============================================================================
// Specification: field layout of each instruction type
// ============================================================================

/// Layout: subject:text, from:key, to:key, salt:text, iv:text,
/// version:text, parent_id:text.
pub open spec fn spec_decode_createmail_instruction(data: Seq<u8>) -> Result<
    CreatemailView,
    ErrorKind,
> {
    match spec_parse_string(data, 0) {
        Err(k) => Err(k),
        Ok((subject, o1)) => match spec_parse_key(data, o1) {
            Err(k) => Err(k),
            Ok((from, o2)) => match spec_parse_key(data, o2) {
                Err(k) => Err(k),
                Ok((to, o3)) => match spec_parse_string(data, o3) {
                    Err(k) => Err(k),
                    Ok((salt, o4)) => match spec_parse_string(data, o4) {
                        Err(k) => Err(k),
                        Ok((iv, o5)) => match spec_parse_string(data, o5) {
                            Err(k) => Err(k),
                            Ok((version, o6)) => match spec_parse_string(data, o6) {
                                Err(k) => Err(k),
                                Ok(
                                    (parent_id, _),
                                ) => Ok(
                                    CreatemailView {
                                        subject,
                                        from,
                                        to,
                                        salt,
                                        iv,
                                        version,
                                        parent_id,
                                    },
                                ),
                            },
                        },
                    },
                },
            },
        },
    }
}

/// Layout: body:text.
pub open spec fn spec_decode_updatemail_instruction(data: Seq<u8>) -> Result<
    UpdatemailView,
    ErrorKind,
> {
    match spec_parse_string(data, 0) {
        Err(k) => Err(k),
        Ok((body, _)) => Ok(UpdatemailView { body }),
    }
}

/// Layout: no fields beyond the discriminator; every payload decodes.
pub open spec fn spec_decode_updatemailreadstatus_instruction(data: Seq<u8>) -> Result<
    UpdatemailreadstatusView,
    ErrorKind,
> {
    Ok(UpdatemailreadstatusView {})
}

/// Layout: label:u32.
pub open spec fn spec_decode_updatemaillabel_instruction(data: Seq<u8>) -> Result<
    UpdatemaillabelView,
    ErrorKind,
> {
    match spec_parse_u32(data, 0) {
        Err(k) => Err(k),
        Ok((label, _)) => Ok(UpdatemaillabelView { label }),
    }
}

/// Layout: nostr_key:text.
pub open spec fn spec_decode_register_v2_instruction(data: Seq<u8>) -> Result<
    RegisterV2View,
    ErrorKind,
> {
    match spec_parse_string(data, 0) {
        Err(k) => Err(k),
        Ok((nostr_key, _)) => Ok(RegisterV2View { nostr_key }),
    }
}

/// Layout: nostr_key:text, mailbox:key.
pub open spec fn spec_decode_update_account_v2_instruction(data: Seq<u8>) -> Result<
    UpdateAccountV2View,
    ErrorKind,
> {
    match spec_parse_string(data, 0) {
        Err(k) => Err(k),
        Ok((nostr_key, o1)) => match spec_parse_key(data, o1) {
            Err(k) => Err(k),
            Ok((mailbox, _)) => Ok(UpdateAccountV2View { nostr_key, mailbox }),
        },
    }
}

/// Layout: subject:text, body:text, from:key, to:key, salt:text, iv:text,
/// version:text.
pub open spec fn spec_decode_sendmail_instruction(data: Seq<u8>) -> Result<
    SendmailView,
    ErrorKind,
> {
    match spec_parse_string(data, 0) {
        Err(k) => Err(k),
        Ok((subject, o1)) => match spec_parse_string(data, o1) {
            Err(k) => Err(k),
            Ok((body, o2)) => match spec_parse_key(data, o2) {
                Err(k) => Err(k),
                Ok((from, o3)) => match spec_parse_key(data, o3) {
                    Err(k) => Err(k),
                    Ok((to, o4)) => match spec_parse_string(data, o4) {
                        Err(k) => Err(k),
                        Ok((salt, o5)) => match spec_parse_string(data, o5) {
                            Err(k) => Err(k),
                            Ok((iv, o6)) => match spec_parse_string(data, o6) {
                                Err(k) => Err(k),
                                Ok(
                                    (version, _),
                                ) => Ok(
                                    SendmailView { subject, body, from, to, salt, iv, version },
                                ),
                            },
                        },
                    },
                },
            },
        },
    }
}

/// Layout: nostr_key:text.
pub open spec fn spec_decode_register_instruction(data: Seq<u8>) -> Result<
    RegisterView,
    ErrorKind,
> {
    match spec_parse_string(data, 0) {
        Err(k) => Err(k),
        Ok((nostr_key, _)) => Ok(RegisterView { nostr_key }),
    }
}

// ============================================================================
// Executable decoders
// ============================================================================

/// Deserialize Createmail instruction data.
pub fn deserialize_createmail_instruction(data: &[u8]) -> (r: Result<
    CreatemailCustom,
    DeserializationError,
>)
    ensures
        ({
            let sp = spec_decode_createmail_instruction(data@);
            match r {
                Ok(rec) => sp is Ok && rec@ == sp->Ok_0 && rec.wf(),
                Err(e) => sp is Err && e.kind == sp->Err_0,
            }
        }),
{
    let mut offset: usize = 0;
    let subject = match parse_string(data, &mut offset) {
        Ok(v) => v,
        Err(e) => { return Err(e); },
    };
    let from = match parse_pubkey(data, &mut offset) {
        Ok(v) => v,
        Err(e) => { return Err(e); },
    };
    let to = match parse_pubkey(data, &mut offset) {
        Ok(v) => v,
        Err(e) => { return Err(e); },
    };
    let salt = match parse_string(data, &mut offset) {
        Ok(v) => v,
        Err(e) => { return Err(e); },
    };
    let iv = match parse_string(data, &mut offset) {
        Ok(v) => v,
        Err(e) => { return Err(e); },
    };
    let version = match parse_string(data, &mut offset) {
        Ok(v) => v,
        Err(e) => { return Err(e); },
    };
    let parent_id = match parse_string(data, &mut offset) {
        Ok(v) => v,
        Err(e) => { return Err(e); },
    };
    Ok(CreatemailCustom { subject, from, to, salt, iv, version, parent_id })
}

/// Deserialize Updatemail instruction data.
pub fn deserialize_updatemail_instruction(data: &[u8]) -> (r: Result<
    UpdatemailCustom,
    DeserializationError,
>)
    ensures
        ({
            let sp = spec_decode_updatemail_instruction(data@);
            match r {
                Ok(rec) => sp is Ok && rec@ == sp->Ok_0,
                Err(e) => sp is Err && e.kind == sp->Err_0,
            }
        }),
{
    let mut offset: usize = 0;
    let body = match parse_string(data, &mut offset) {
        Ok(v) => v,
        Err(e) => { return Err(e); },
    };
    Ok(UpdatemailCustom { body })
}

/// Deserialize Updatemailreadstatus instruction data.  This instruction
/// carries no fields beyond the discriminator, so every payload decodes.
pub fn deserialize_updatemailreadstatus_instruction(data: &[u8]) -> (r: Result<
    UpdatemailreadstatusCustom,
    DeserializationError,
>)
    ensures
        r is Ok,
        ({
            let sp = spec_decode_updatemailreadstatus_instruction(data@);
            sp is Ok && r->Ok_0@ == sp->Ok_0
        }),
{
    Ok(UpdatemailreadstatusCustom {})
}

/// Deserialize Updatemaillabel instruction data.
pub fn deserialize_updatemaillabel_instruction(data: &[u8]) -> (r: Result<
    UpdatemaillabelCustom,
    DeserializationError,
>)
    ensures
        ({
            let sp = spec_decode_updatemaillabel_instruction(data@);
            match r {
                Ok(rec) => sp is Ok && rec@ == sp->Ok_0,
                Err(e) => sp is Err && e.kind == sp->Err_0,
            }
        }),
{
    let mut offset: usize = 0;
    let label = match parse_u32(data, &mut offset) {
        Ok(v) => v,
        Err(e) => { return Err(e); },
    };
    Ok(UpdatemaillabelCustom { label })
}

/// Deserialize RegisterV2 instruction data.
pub fn deserialize_register_v2_instruction(data: &[u8]) -> (r: Result<
    RegisterV2Custom,
    DeserializationError,
>)
    ensures
        ({
            let sp = spec_decode_register_v2_instruction(data@);
            match r {
                Ok(rec) => sp is Ok && rec@ == sp->Ok_0,
                Err(e) => sp is Err && e.kind == sp->Err_0,
            }
        }),
{
    let mut offset: usize = 0;
    let nostr_key = match parse_string(data, &mut offset) {
        Ok(v) => v,
        Err(e) => { return Err(e); },
    };
    Ok(RegisterV2Custom { nostr_key })
}

/// Deserialize UpdateAccountV2 instruction data.
pub fn deserialize_update_account_v2_instruction(data: &[u8]) -> (r: Result<
    UpdateAccountV2Custom,
    DeserializationError,
>)
    ensures
        ({
            let sp = spec_decode_update_account_v2_instruction(data@);
            match r {
                Ok(rec) => sp is Ok && rec@ == sp->Ok_0 && rec.wf(),
                Err(e) => sp is Err && e.kind == sp->Err_0,
            }
        }),
{
    let mut offset: usize = 0;
    let nostr_key = match parse_string(data, &mut offset) {
        Ok(v) => v,
        Err(e) => { return Err(e); },
    };
    let mailbox = match parse_pubkey(data, &mut offset) {
        Ok(v) => v,
        Err(e) => { return Err(e); },
    };
    Ok(UpdateAccountV2Custom { nostr_key, mailbox })
}

/// Deserialize Sendmail instruction data.
pub fn deserialize_sendmail_instruction(data: &[u8]) -> (r: Result<
    SendmailCustom,
    DeserializationError,
>)
    ensures
        ({
            let sp = spec_decode_sendmail_instruction(data@);
            match r {
                Ok(rec) => sp is Ok && rec@ == sp->Ok_0 && rec.wf(),
                Err(e) => sp is Err && e.kind == sp->Err_0,
            }
        }),
{
    let mut offset: usize = 0;
    let subject = match parse_string(data, &mut offset) {
        Ok(v) => v,
        Err(e) => { return Err(e); },
    };
    let body = match parse_string(data, &mut offset) {
        Ok(v) => v,
        Err(e) => { return Err(e); },
    };
    let from = match parse_pubkey(data, &mut offset) {
        Ok(v) => v,
        Err(e) => { return Err(e); },
    };
    let to = match parse_pubkey(data, &mut offset) {
        Ok(v) => v,
        Err(e) => { return Err(e); },
    };
    let salt = match parse_string(data, &mut offset) {
        Ok(v) => v,
        Err(e) => { return Err(e); },
    };
    let iv = match parse_string(data, &mut offset) {
        Ok(v) => v,
        Err(e) => { return Err(e); },
    };
    let version = match parse_string(data, &mut offset) {
        Ok(v) => v,
        Err(e) => { return Err(e); },
    };
    Ok(SendmailCustom { subject, body, from, to, salt, iv, version })
}

/// Deserialize Register instruction data.
pub fn deserialize_register_instruction(data: &[u8]) -> (r: Result<
    RegisterCustom,
    DeserializationError,
>)
    ensures
        ({
            let sp = spec_decode_register_instruction(data@);
            match r {
                Ok(rec) => sp is Ok && rec@ == sp->Ok_0,
                Err(e) => sp is Err && e.kind == sp->Err_0,
            }
        }),
{
    let mut offset: usize = 0;
    let nostr_key = match parse_string(data, &mut offset) {
        Ok(v) => v,
        Err(e) => { return Err(e); },
    };
    Ok(RegisterCustom { nostr_key })
}

} // verus!
