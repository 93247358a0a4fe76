//! The key deriver: a deterministic, content-addressed primary key for
//! each record, computed as the lowercase hex encoding of the SHA-256
//! digest of the record's canonical fields, concatenated in order as
//! UTF-8 bytes.  No timestamp, counter or random salt enters the key, so
//! identical field values in identical order always yield the identical
//! key.

use vstd::prelude::*;
use vstd::utf8::{
    decode_utf8, encode_utf8, encode_utf8_decode_utf8, encode_utf8_valid_utf8, is_ascii_chars,
    is_ascii_chars_encode_utf8, valid_utf8,
};

use crate::helpers::string_from_utf8;

verus! {

// ============================================================================
// SHA-256, behind a name
// ============================================================================

/// The SHA-256 digest of a byte sequence.  The algorithm itself is not
/// restated here; the name stands for whatever the digest of those bytes
/// is, the same in every process and on every machine.
pub uninterp spec fn sha256_of(data: Seq<u8>) -> Seq<u8>;

/// Relies on sha2's `Sha256` (through the `Digest` trait): the digest is
/// a pure function of the input bytes, and is exactly 32 bytes long.
#[verifier::external_body]
fn sha256_digest(data: &[u8]) -> (r: Vec<u8>)
    ensures
        r@ == sha256_of(data@),
        r@.len() == 32,
{
    <sha2::Sha256 as sha2::Digest>::digest(data).to_vec()
}

// ============================================================================
// ASCII bytes to text
// ============================================================================

/// The characters spelled by a sequence of ASCII bytes.
pub open spec fn ascii_chars_of(bytes: Seq<u8>) -> Seq<char> {
    bytes.map_values(|b: u8| b as char)
}

/// Builds the string spelled by a sequence of ASCII bytes.
pub fn ascii_to_string(bytes: Vec<u8>) -> (r: String)
    requires
        forall|i: int| 0 <= i < bytes@.len() ==> bytes@[i] < 128,
    ensures
        r@ == ascii_chars_of(bytes@),
{
    proof {
        let chars = ascii_chars_of(bytes@);
        assert(is_ascii_chars(chars)) by {
            assert forall|i: int| 0 <= i < chars.len() implies '\0' <= #[trigger] chars[i]
                <= '\u{7f}' by {
                assert(chars[i] == bytes@[i] as char);
            }
        }
        is_ascii_chars_encode_utf8(chars);
        assert(encode_utf8(chars) =~= bytes@);
        encode_utf8_valid_utf8(chars);
        encode_utf8_decode_utf8(chars);
    }
    match string_from_utf8(bytes) {
        Some(s) => s,
        None => {
            proof {
                assert(false);
            }
            String::new()
        },
    }
}

// ============================================================================
// Lowercase hex encoding
// ============================================================================

/// The ASCII code of the lowercase hex digit for a value below 16.
pub open spec fn hex_digit(n: u8) -> u8
    recommends
        n < 16,
{
    if n < 10 {
        (48 + n) as u8
    } else {
        (87 + n) as u8
    }
}

/// The ASCII bytes of the lowercase hex encoding: two digits per input
/// byte, high nibble first.
pub open spec fn hex_bytes_of(bytes: Seq<u8>) -> Seq<u8>
    decreases bytes.len(),
{
    if bytes.len() == 0 {
        Seq::empty()
    } else {
        hex_bytes_of(bytes.drop_last()) + seq![
            hex_digit(bytes.last() / 16),
            hex_digit(bytes.last() % 16),
        ]
    }
}

/// The characters of the lowercase hex encoding.
pub open spec fn hex_chars_of(bytes: Seq<u8>) -> Seq<char> {
    ascii_chars_of(hex_bytes_of(bytes))
}

/// The hex encoding spells two digits for each input byte.
pub proof fn lemma_hex_bytes_len(bytes: Seq<u8>)
    ensures
        hex_bytes_of(bytes).len() == 2 * bytes.len(),
    decreases bytes.len(),
{
    if bytes.len() > 0 {
        lemma_hex_bytes_len(bytes.drop_last());
    }
}

proof fn lemma_hex_bytes_ascii(bytes: Seq<u8>)
    ensures
        forall|i: int| 0 <= i < hex_bytes_of(bytes).len() ==> hex_bytes_of(bytes)[i] < 128,
    decreases bytes.len(),
{
    if bytes.len() > 0 {
        lemma_hex_bytes_ascii(bytes.drop_last());
        let pre = hex_bytes_of(bytes.drop_last());
        let tail = seq![hex_digit(bytes.last() / 16), hex_digit(bytes.last() % 16)];
        assert forall|i: int| 0 <= i < hex_bytes_of(bytes).len() implies hex_bytes_of(bytes)[i]
            < 128 by {
            if i < pre.len() {
                assert(hex_bytes_of(bytes)[i] == pre[i]);
            } else {
                assert(hex_bytes_of(bytes)[i] == tail[i - pre.len()]);
            }
        }
    }
}

/// Encodes bytes as lowercase hex text.
pub fn hex_encode(bytes: &[u8]) -> (r: String)
    ensures
        r@ == hex_chars_of(bytes@),
        r@.len() == 2 * bytes@.len(),
{
    let mut out: Vec<u8> = Vec::new();
    let mut i: usize = 0;
    while i < bytes.len()
        invariant
            i <= bytes@.len(),
            out@ == hex_bytes_of(bytes@.take(i as int)),
        decreases bytes@.len() - i,
    {
        let b = bytes[i];
        let hi = b / 16;
        let lo = b % 16;
        out.push(if hi < 10 { 48 + hi } else { 87 + hi });
        out.push(if lo < 10 { 48 + lo } else { 87 + lo });
        proof {
            let taken = bytes@.take(i as int + 1);
            assert(taken.drop_last() =~= bytes@.take(i as int));
            assert(taken.last() == bytes@[i as int]);
            assert(out@ =~= hex_bytes_of(taken));
        }
        i = i + 1;
    }
    proof {
        assert(bytes@.take(bytes@.len() as int) =~= bytes@);
        lemma_hex_bytes_ascii(bytes@);
        lemma_hex_bytes_len(bytes@);
    }
    ascii_to_string(out)
}

// ============================================================================
// Decimal and boolean text forms, used for key material and columns
// ============================================================================

/// The ASCII bytes of the decimal form of `n`, most significant digit
/// first, with no leading zeros (a single zero digit for zero).
pub open spec fn dec_bytes_of(n: nat) -> Seq<u8>
    decreases n,
{
    if n < 10 {
        seq![(48 + n) as u8]
    } else {
        dec_bytes_of(n / 10) + seq![(48 + n % 10) as u8]
    }
}

/// The characters of the decimal form of `n`.
pub open spec fn dec_chars_of(n: nat) -> Seq<char> {
    ascii_chars_of(dec_bytes_of(n))
}

proof fn lemma_dec_bytes_ascii(n: nat)
    ensures
        forall|i: int| 0 <= i < dec_bytes_of(n).len() ==> dec_bytes_of(n)[i] < 128,
    decreases n,
{
    if n >= 10 {
        lemma_dec_bytes_ascii(n / 10);
        let pre = dec_bytes_of(n / 10);
        let tail = seq![(48 + n % 10) as u8];
        assert forall|i: int| 0 <= i < dec_bytes_of(n).len() implies dec_bytes_of(n)[i] < 128 by {
            if i < pre.len() {
                assert(dec_bytes_of(n)[i] == pre[i]);
            } else {
                assert(dec_bytes_of(n)[i] == tail[i - pre.len()]);
            }
        }
    }
}

fn push_dec(out: &mut Vec<u8>, v: u64)
    ensures
        final(out)@ == old(out)@ + dec_bytes_of(v as nat),
    decreases v,
{
    if v >= 10 {
        push_dec(out, v / 10);
    }
    out.push(48 + (v % 10) as u8);
    proof {
        if v >= 10 {
            assert(final(out)@ =~= old(out)@ + dec_bytes_of(v as nat));
        } else {
            assert(final(out)@ =~= old(out)@ + dec_bytes_of(v as nat));
        }
    }
}

/// The decimal form of a u64, as the storage rows spell it.
pub fn u64_to_string(v: u64) -> (r: String)
    ensures
        r@ == dec_chars_of(v as nat),
{
    let mut out: Vec<u8> = Vec::new();
    push_dec(&mut out, v);
    proof {
        lemma_dec_bytes_ascii(v as nat);
    }
    ascii_to_string(out)
}

/// The decimal form of a u32, as the storage rows spell it.
pub fn u32_to_string(v: u32) -> (r: String)
    ensures
        r@ == dec_chars_of(v as nat),
{
    u64_to_string(v as u64)
}

/// The characters a boolean is spelled with in rows and key material.
pub open spec fn bool_chars_of(b: bool) -> Seq<char> {
    if b {
        "true"@
    } else {
        "false"@
    }
}

/// The text form of a boolean, as the storage rows spell it.
pub fn bool_to_string(b: bool) -> (r: String)
    ensures
        r@ == bool_chars_of(b),
{
    if b {
        "true".to_owned()
    } else {
        "false".to_owned()
    }
}

// ============================================================================
// The primary key
// ============================================================================

/// The UTF-8 bytes of a field list, concatenated in order.
pub open spec fn utf8_cat(fields: Seq<Seq<char>>) -> Seq<u8>
    decreases fields.len(),
{
    if fields.len() == 0 {
        Seq::empty()
    } else {
        utf8_cat(fields.drop_last()) + encode_utf8(fields.last())
    }
}

/// The derived primary key of a field list: the lowercase hex encoding of
/// the SHA-256 digest of the fields' UTF-8 bytes, concatenated in order.
/// A pure function of the fields — reprocessing identical input always
/// yields an identical key.
pub open spec fn pk_of(fields: Seq<Seq<char>>) -> Seq<char> {
    hex_chars_of(sha256_of(utf8_cat(fields)))
}

/// Appends every byte of `src` to `dst`.
fn extend_bytes(dst: &mut Vec<u8>, src: &[u8])
    ensures
        final(dst)@ == old(dst)@ + src@,
{
    let mut j: usize = 0;
    while j < src.len()
        invariant
            j <= src@.len(),
            dst@ == old(dst)@ + src@.take(j as int),
        decreases src@.len() - j,
    {
        dst.push(src[j]);
        proof {
            assert(old(dst)@ + src@.take(j as int) + seq![src@[j as int]] =~= old(dst)@
                + src@.take(j as int + 1));
        }
        j = j + 1;
    }
    proof {
        assert(old(dst)@ + src@.take(src@.len() as int) =~= old(dst)@ + src@);
    }
}

fn derive_pk(fields: &Vec<String>) -> (r: String)
    ensures
        r@ == pk_of(fields@.map_values(|s: String| s@)),
        r@.len() == 64,
{
    let ghost views = fields@.map_values(|s: String| s@);
    let mut bytes: Vec<u8> = Vec::new();
    let mut i: usize = 0;
    while i < fields.len()
        invariant
            i <= fields@.len(),
            views == fields@.map_values(|s: String| s@),
            bytes@ == utf8_cat(views.take(i as int)),
        decreases fields@.len() - i,
    {
        extend_bytes(&mut bytes, fields[i].as_str().as_bytes());
        proof {
            let taken = views.take(i as int + 1);
            assert(taken.drop_last() =~= views.take(i as int));
            assert(taken.last() == fields@[i as int]@);
            assert(bytes@ == utf8_cat(taken));
        }
        i = i + 1;
    }
    proof {
        assert(views.take(views.len() as int) =~= views);
    }
    let digest = sha256_digest(bytes.as_slice());
    hex_encode(digest.as_slice())
}

/// Derives the primary key for an event row by hashing the given fields.
pub fn generate_event_pk(fields: &Vec<String>) -> (r: String)
    ensures
        r@ == pk_of(fields@.map_values(|s: String| s@)),
        r@.len() == 64,
{
    derive_pk(fields)
}

/// Derives the primary key for an instruction row by hashing the given
/// fields.
pub fn generate_instruction_pk(fields: &Vec<String>) -> (r: String)
    ensures
        r@ == pk_of(fields@.map_values(|s: String| s@)),
        r@.len() == 64,
{
    derive_pk(fields)
}

/// Key determinism: two records presenting identical field values in an
/// identical order always derive the identical primary key.  (That
/// differing key material yields differing keys rests on the digest's
/// collision resistance and is not a logical property.)
pub proof fn lemma_key_deterministic(a: Seq<Seq<char>>, b: Seq<Seq<char>>)
    requires
        a == b,
    ensures
        pk_of(a) == pk_of(b),
{
}

} // verus!
