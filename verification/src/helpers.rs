//! The field codec: primitive decoders over a byte slice and a running
//! cursor.  Every decoder reads a fixed or length-prefixed value, advances
//! the cursor by exactly the bytes consumed, and returns a typed error on
//! malformed input; none reads past the slice bound or panics.
//!
//! Wire format: fixed identifier = 32 opaque bytes; text = 4-byte
//! little-endian length prefix followed by that many UTF-8 bytes;
//! u32 = 4 bytes little-endian; bool = 1 byte, zero is false.

use vstd::prelude::*;
use vstd::slice::{slice_subrange, slice_to_vec};
use vstd::utf8::{decode_utf8, valid_utf8};

use crate::errors::{DeserializationError, ErrorKind};
use crate::types::Pubkey;

verus! {

/// Relies on std's `String::from_utf8`: it succeeds exactly on valid UTF-8
/// input and then returns the string whose encoding is that input, a pure
/// function of the bytes.
#[verifier::external_body]
pub fn string_from_utf8(bytes: Vec<u8>) -> (r: Option<String>)
    ensures
        r is Some <==> valid_utf8(bytes@),
        r is Some ==> r->Some_0@ == decode_utf8(bytes@),
{
    String::from_utf8(bytes).ok()
}

// ============================================================================
// Specification of the wire format
// ============================================================================

/// What reading a fixed 32-byte identifier at `off` yields: the 32 bytes
/// and the advanced cursor, or a truncation error.
pub open spec fn spec_parse_key(data: Seq<u8>, off: nat) -> Result<(Seq<u8>, nat), ErrorKind> {
    if off + 32 <= data.len() {
        Ok((data.subrange(off as int, off as int + 32), (off + 32) as nat))
    } else {
        Err(ErrorKind::TruncatedInput)
    }
}

/// The unsigned value of four bytes read little-endian.
pub open spec fn le_u32_value(b0: u8, b1: u8, b2: u8, b3: u8) -> nat {
    (b0 as nat) + 0x100 * (b1 as nat) + 0x10000 * (b2 as nat) + 0x1000000 * (b3 as nat)
}

/// Reads four bytes as a little-endian u32.
fn le_u32(b0: u8, b1: u8, b2: u8, b3: u8) -> (r: u32)
    ensures
        r as nat == le_u32_value(b0, b1, b2, b3),
{
    let r = (b0 as u32) | ((b1 as u32) << 8) | ((b2 as u32) << 16) | ((b3 as u32) << 24);
    proof {
        assert(((b0 as u32) | ((b1 as u32) << 8) | ((b2 as u32) << 16) | ((b3 as u32) << 24))
            == ((b0 as u32) + 0x100 * (b1 as u32) + 0x10000 * (b2 as u32) + 0x1000000 * (
        b3 as u32)) as u32) by (bit_vector);
    }
    r
}

/// What reading a little-endian u32 at `off` yields.
pub open spec fn spec_parse_u32(data: Seq<u8>, off: nat) -> Result<(u32, nat), ErrorKind> {
    if off + 4 <= data.len() {
        Ok(
            (
                le_u32_value(
                    data[off as int],
                    data[off as int + 1],
                    data[off as int + 2],
                    data[off as int + 3],
                ) as u32,
                (off + 4) as nat,
            ),
        )
    } else {
        Err(ErrorKind::TruncatedInput)
    }
}

/// What reading a one-byte boolean at `off` yields; any nonzero byte is true.
pub open spec fn spec_parse_bool(data: Seq<u8>, off: nat) -> Result<(bool, nat), ErrorKind> {
    if off + 1 <= data.len() {
        Ok((data[off as int] != 0, (off + 1) as nat))
    } else {
        Err(ErrorKind::TruncatedInput)
    }
}

/// The declared length of the text at `off`: the 4-byte little-endian
/// prefix, meaningful only when `off + 4 <= data.len()`.
pub open spec fn spec_text_len(data: Seq<u8>, off: nat) -> nat {
    le_u32_value(
        data[off as int],
        data[off as int + 1],
        data[off as int + 2],
        data[off as int + 3],
    )
}

/// What reading length-prefixed text at `off` yields: the decoded
/// characters and the advanced cursor; a truncation error when the length
/// field or the content runs past the end, an encoding error when the
/// content is not valid UTF-8.
pub open spec fn spec_parse_string(data: Seq<u8>, off: nat) -> Result<(Seq<char>, nat), ErrorKind> {
    if off + 4 > data.len() {
        Err(ErrorKind::TruncatedInput)
    } else {
        let l = spec_text_len(data, off);
        if off + 4 + l > data.len() {
            Err(ErrorKind::TruncatedInput)
        } else {
            let content = data.subrange(off as int + 4, off as int + 4 + l);
            if valid_utf8(content) {
                Ok((decode_utf8(content), (off + 4 + l) as nat))
            } else {
                Err(ErrorKind::InvalidEncoding)
            }
        }
    }
}

// ============================================================================
// Executable decoders
// ============================================================================

/// Parse a 32-byte fixed identifier from binary data.
pub fn parse_pubkey(data: &[u8], offset: &mut usize) -> (r: Result<Pubkey, DeserializationError>)
    ensures
        ({
            let sp = spec_parse_key(data@, *old(offset) as nat);
            match r {
                Ok(k) => sp is Ok && k@ == sp->Ok_0.0 && *final(offset) == sp->Ok_0.1 && k.wf(),
                Err(e) => sp is Err && e.kind == sp->Err_0 && *final(offset) == *old(offset),
            }
        }),
{
    if data.len() >= 32 && *offset <= data.len() - 32 {
        let end = *offset + 32;
        let bytes = slice_to_vec(slice_subrange(data, *offset, end));
        *offset = end;
        Ok(Pubkey { bytes })
    } else {
        Err(DeserializationError::truncated("data too short for pubkey"))
    }
}

/// Parse a u32 from binary data (little-endian).
pub fn parse_u32(data: &[u8], offset: &mut usize) -> (r: Result<u32, DeserializationError>)
    ensures
        ({
            let sp = spec_parse_u32(data@, *old(offset) as nat);
            match r {
                Ok(v) => sp is Ok && v == sp->Ok_0.0 && *final(offset) == sp->Ok_0.1,
                Err(e) => sp is Err && e.kind == sp->Err_0 && *final(offset) == *old(offset),
            }
        }),
{
    if data.len() >= 4 && *offset <= data.len() - 4 {
        let v = le_u32(data[*offset], data[*offset + 1], data[*offset + 2], data[*offset + 3]);
        *offset = *offset + 4;
        Ok(v)
    } else {
        Err(DeserializationError::truncated("data too short for u32"))
    }
}

/// Parse a boolean from binary data (1 byte; any nonzero byte is true).
pub fn parse_bool(data: &[u8], offset: &mut usize) -> (r: Result<bool, DeserializationError>)
    ensures
        ({
            let sp = spec_parse_bool(data@, *old(offset) as nat);
            match r {
                Ok(v) => sp is Ok && v == sp->Ok_0.0 && *final(offset) == sp->Ok_0.1,
                Err(e) => sp is Err && e.kind == sp->Err_0 && *final(offset) == *old(offset),
            }
        }),
{
    if *offset < data.len() {
        let b = data[*offset];
        *offset = *offset + 1;
        Ok(b != 0)
    } else {
        Err(DeserializationError::truncated("data too short for boolean"))
    }
}

/// Parse a length-prefixed string from binary data.
///
/// Format: 4-byte little-endian length followed by that many UTF-8 bytes.
/// On a truncated length field the cursor is left unchanged; once the
/// length field was read the cursor rests after it even when the content
/// is rejected.
pub fn parse_string(data: &[u8], offset: &mut usize) -> (r: Result<String, DeserializationError>)
    ensures
        ({
            let sp = spec_parse_string(data@, *old(offset) as nat);
            match r {
                Ok(s) => sp is Ok && s@ == sp->Ok_0.0 && *final(offset) == sp->Ok_0.1,
                Err(e) => sp is Err && e.kind == sp->Err_0 && *final(offset) == (
                if *old(offset) + 4 <= data@.len() {
                    (*old(offset) + 4) as usize
                } else {
                    *old(offset)
                }),
            }
        }),
{
    if !(data.len() >= 4 && *offset <= data.len() - 4) {
        return Err(DeserializationError::truncated("data too short for string length"));
    }
    let len_end = *offset + 4;
    let str_len = le_u32(
        data[*offset],
        data[*offset + 1],
        data[*offset + 2],
        data[*offset + 3],
    ) as usize;
    *offset = len_end;
    if str_len > data.len() - *offset {
        return Err(DeserializationError::truncated("data too short for string content"));
    }
    let content_end = *offset + str_len;
    let content = slice_to_vec(slice_subrange(data, *offset, content_end));
    match string_from_utf8(content) {
        Some(s) => {
            *offset = content_end;
            Ok(s)
        },
        None => Err(DeserializationError::invalid_encoding("string content is not valid UTF-8")),
    }
}

/// Validate that at least `needed` bytes remain from `offset`.
pub fn validate_remaining_bytes(data: &[u8], offset: usize, needed: usize, context: &str) -> (r:
    Result<(), DeserializationError>)
    ensures
        r is Ok <==> offset + needed <= data@.len(),
        r is Err ==> r->Err_0.kind == ErrorKind::TruncatedInput,
{
    if needed <= data.len() && offset <= data.len() - needed {
        Ok(())
    } else {
        Err(DeserializationError::truncated(context))
    }
}

// ============================================================================
// Truncation safety
// ============================================================================

/// Reading a fixed identifier with fewer than 32 bytes remaining is
/// rejected as truncated; in particular a buffer missing the final byte of
/// the identifier is.
pub proof fn lemma_key_truncation(data: Seq<u8>, off: nat)
    requires
        off + 32 > data.len(),
    ensures
        spec_parse_key(data, off) == Result::<(Seq<u8>, nat), ErrorKind>::Err(
            ErrorKind::TruncatedInput,
        ),
{
}

/// Reading a u32 with fewer than 4 bytes remaining is rejected as truncated.
pub proof fn lemma_u32_truncation(data: Seq<u8>, off: nat)
    requires
        off + 4 > data.len(),
    ensures
        spec_parse_u32(data, off) == Result::<(u32, nat), ErrorKind>::Err(
            ErrorKind::TruncatedInput,
        ),
{
}

/// Reading a boolean at or past the end of the buffer is rejected as
/// truncated.
pub proof fn lemma_bool_truncation(data: Seq<u8>, off: nat)
    requires
        off + 1 > data.len(),
    ensures
        spec_parse_bool(data, off) == Result::<(bool, nat), ErrorKind>::Err(
            ErrorKind::TruncatedInput,
        ),
{
}

/// Reading text whose 4-byte length field runs past the end of the buffer
/// is rejected as truncated.
pub proof fn lemma_string_length_truncation(data: Seq<u8>, off: nat)
    requires
        off + 4 > data.len(),
    ensures
        spec_parse_string(data, off) == Result::<(Seq<char>, nat), ErrorKind>::Err(
            ErrorKind::TruncatedInput,
        ),
{
}

/// Reading text whose declared content runs past the end of the buffer —
/// for example a buffer missing only the content's final byte — is
/// rejected as truncated.
pub proof fn lemma_string_content_truncation(data: Seq<u8>, off: nat)
    requires
        off + 4 <= data.len(),
        off + 4 + spec_text_len(data, off) > data.len(),
    ensures
        spec_parse_string(data, off) == Result::<(Seq<char>, nat), ErrorKind>::Err(
            ErrorKind::TruncatedInput,
        ),
{
}

} // verus!
