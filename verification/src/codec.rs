//! Byte-level primitives shared by the record codec and the instruction
//! decoder: little-endian integer fields, length-prefixed UTF-8 string
//! fields, zero-filled buffers, and position-based parsing of each.
//!
//! Every variable-length field is stored as a 4-byte little-endian length
//! followed by the field's raw UTF-8 bytes; scalars are fixed-width
//! little-endian; identities are raw 32-byte blocks.

use vstd::prelude::*;
use vstd::bytes::lemma_auto_spec_u32_to_from_le_bytes;
use vstd::bytes::lemma_auto_spec_u64_to_from_le_bytes;
use vstd::bytes::spec_u32_from_le_bytes;
use vstd::bytes::spec_u32_to_le_bytes;
use vstd::bytes::spec_u64_from_le_bytes;
use vstd::bytes::spec_u64_to_le_bytes;
use vstd::bytes::u32_from_le_bytes;
use vstd::bytes::u32_to_le_bytes;
use vstd::bytes::u64_from_le_bytes;
use vstd::bytes::u64_to_le_bytes;
use vstd::slice::slice_index_get;
use vstd::slice::slice_subrange;
use vstd::slice::slice_to_vec;
use vstd::utf8::decode_utf8;
use vstd::utf8::encode_utf8;
use vstd::utf8::valid_utf8;

verus! {

// ---------------------------------------------------------------------------
// Zero-filled buffers
// ---------------------------------------------------------------------------
/// True when every byte of the buffer is zero; freshly created storage
/// looks like this before a record is first written.
pub open spec fn all_zero(s: Seq<u8>) -> bool {
    forall|i: int| 0 <= i < s.len() ==> s[i] == 0
}

/// A sequence of `n` zero bytes.
pub open spec fn zero_seq(n: nat) -> Seq<u8> {
    Seq::new(n, |i: int| 0u8)
}

/// Scan a buffer for a non-zero byte.
pub fn is_all_zero(b: &[u8]) -> (r: bool)
    ensures
        r == all_zero(b@),
{
    let mut i: usize = 0;
    while i < b.len()
        invariant
            i <= b@.len(),
            forall|j: int| 0 <= j < i ==> b@[j] == 0,
        decreases b@.len() - i,
    {
        if *slice_index_get(b, i) != 0 {
            return false;
        }
        i += 1;
    }
    true
}

/// A buffer of `n` zero bytes.
pub fn zero_vec(n: usize) -> (r: Vec<u8>)
    ensures
        r@.len() == n,
        all_zero(r@),
{
    let mut r: Vec<u8> = Vec::new();
    while r.len() < n
        invariant
            r@.len() <= n,
            all_zero(r@),
        decreases n - r@.len(),
    {
        r.push(0);
    }
    r
}

// ---------------------------------------------------------------------------
// Field encodings
// ---------------------------------------------------------------------------
/// The single byte that stores a boolean.
pub open spec fn bool_byte(b: bool) -> u8 {
    if b {
        1
    } else {
        0
    }
}

/// The UTF-8 bytes of a string value.
pub open spec fn str_bytes(s: Seq<char>) -> Seq<u8> {
    encode_utf8(s)
}

/// True when a string's byte length fits in the 4-byte length prefix.
pub open spec fn str_field_fits(s: Seq<char>) -> bool {
    str_bytes(s).len() <= u32::MAX
}

/// A string field on the wire: 4-byte little-endian byte length, then the
/// string's UTF-8 bytes.
pub open spec fn str_field(s: Seq<char>) -> Seq<u8> {
    spec_u32_to_le_bytes(str_bytes(s).len() as u32) + str_bytes(s)
}

/// The byte length of an encoded string field.
pub proof fn lemma_str_field_len(s: Seq<char>)
    ensures
        str_field(s).len() == 4 + str_bytes(s).len(),
{
    lemma_auto_spec_u32_to_from_le_bytes();
}

// ---------------------------------------------------------------------------
// Position-based parsing (specification)
// ---------------------------------------------------------------------------
/// Read one byte at `i`; result and next position.
pub open spec fn parse_u8_at(b: Seq<u8>, i: int) -> Option<(u8, int)> {
    if 0 <= i && i + 1 <= b.len() {
        Some((b[i], i + 1))
    } else {
        None
    }
}

/// Read a strict boolean byte at `i`: 0 or 1, anything else is malformed.
pub open spec fn parse_bool_at(b: Seq<u8>, i: int) -> Option<(bool, int)> {
    match parse_u8_at(b, i) {
        Some((v, j)) => if v == 0 {
            Some((false, j))
        } else if v == 1 {
            Some((true, j))
        } else {
            None
        },
        None => None,
    }
}

/// Read a 4-byte little-endian unsigned integer at `i`.
pub open spec fn parse_u32_at(b: Seq<u8>, i: int) -> Option<(u32, int)> {
    if 0 <= i && i + 4 <= b.len() {
        Some((spec_u32_from_le_bytes(b.subrange(i, i + 4)), i + 4))
    } else {
        None
    }
}

/// Read an 8-byte little-endian unsigned integer at `i`.
pub open spec fn parse_u64_at(b: Seq<u8>, i: int) -> Option<(u64, int)> {
    if 0 <= i && i + 8 <= b.len() {
        Some((spec_u64_from_le_bytes(b.subrange(i, i + 8)), i + 8))
    } else {
        None
    }
}

/// Read a raw 32-byte identity at `i`.
pub open spec fn parse_bytes32_at(b: Seq<u8>, i: int) -> Option<(Seq<u8>, int)> {
    if 0 <= i && i + 32 <= b.len() {
        Some((b.subrange(i, i + 32), i + 32))
    } else {
        None
    }
}

/// Read a length-prefixed UTF-8 string field at `i`.
pub open spec fn parse_str_at(b: Seq<u8>, i: int) -> Option<(Seq<char>, int)> {
    match parse_u32_at(b, i) {
        Some((n, j)) => if j + n <= b.len() {
            if valid_utf8(b.subrange(j, j + n)) {
                Some((decode_utf8(b.subrange(j, j + n)), j + n))
            } else {
                None
            }
        } else {
            None
        },
        None => None,
    }
}

// ---------------------------------------------------------------------------
// Position-based parsing (executable)
// ---------------------------------------------------------------------------
/// Relies on String::from_utf8: it returns the string whose bytes are
/// exactly the input when the input is valid UTF-8, and fails otherwise.
#[verifier::external_body]
fn vec_to_string(v: Vec<u8>) -> (r: Option<String>)
    ensures
        r matches Some(s) ==> valid_utf8(v@) && s@ == decode_utf8(v@),
        r is None ==> !valid_utf8(v@),
{
    String::from_utf8(v).ok()
}

/// Read one byte.
pub fn read_u8(b: &[u8], pos: usize) -> (r: Option<(u8, usize)>)
    ensures
        match r {
            Some((v, p)) => parse_u8_at(b@, pos as int) == Some((v, p as int)),
            None => parse_u8_at(b@, pos as int) is None,
        },
{
    if pos < b.len() {
        Some((*slice_index_get(b, pos), pos + 1))
    } else {
        None
    }
}

/// Read a strict boolean byte.
pub fn read_bool(b: &[u8], pos: usize) -> (r: Option<(bool, usize)>)
    ensures
        match r {
            Some((v, p)) => parse_bool_at(b@, pos as int) == Some((v, p as int)),
            None => parse_bool_at(b@, pos as int) is None,
        },
{
    match read_u8(b, pos) {
        Some((v, p)) => if v == 0 {
            Some((false, p))
        } else if v == 1 {
            Some((true, p))
        } else {
            None
        },
        None => None,
    }
}

/// Read a 4-byte little-endian unsigned integer.
pub fn read_u32(b: &[u8], pos: usize) -> (r: Option<(u32, usize)>)
    ensures
        match r {
            Some((v, p)) => parse_u32_at(b@, pos as int) == Some((v, p as int)),
            None => parse_u32_at(b@, pos as int) is None,
        },
{
    if pos <= b.len() && b.len() - pos >= 4 {
        let s = slice_subrange(b, pos, pos + 4);
        Some((u32_from_le_bytes(s), pos + 4))
    } else {
        None
    }
}

/// Read an 8-byte little-endian unsigned integer.
pub fn read_u64(b: &[u8], pos: usize) -> (r: Option<(u64, usize)>)
    ensures
        match r {
            Some((v, p)) => parse_u64_at(b@, pos as int) == Some((v, p as int)),
            None => parse_u64_at(b@, pos as int) is None,
        },
{
    if pos <= b.len() && b.len() - pos >= 8 {
        let s = slice_subrange(b, pos, pos + 8);
        Some((u64_from_le_bytes(s), pos + 8))
    } else {
        None
    }
}

/// Read a raw 32-byte identity.
pub fn read_bytes32(b: &[u8], pos: usize) -> (r: Option<(Vec<u8>, usize)>)
    ensures
        match r {
            Some((v, p)) => parse_bytes32_at(b@, pos as int) == Some((v@, p as int)),
            None => parse_bytes32_at(b@, pos as int) is None,
        },
{
    if pos <= b.len() && b.len() - pos >= 32 {
        let s = slice_subrange(b, pos, pos + 32);
        Some((slice_to_vec(s), pos + 32))
    } else {
        None
    }
}

/// Read a length-prefixed UTF-8 string field.
pub fn read_str(b: &[u8], pos: usize) -> (r: Option<(String, usize)>)
    ensures
        match r {
            Some((v, p)) => parse_str_at(b@, pos as int) == Some((v@, p as int)),
            None => parse_str_at(b@, pos as int) is None,
        },
{
    match read_u32(b, pos) {
        Some((n, j)) => {
            if n as usize <= b.len() - j {
                let s = slice_subrange(b, j, j + n as usize);
                let bytes = slice_to_vec(s);
                match vec_to_string(bytes) {
                    Some(v) => Some((v, j + n as usize)),
                    None => None,
                }
            } else {
                None
            }
        },
        None => None,
    }
}

// ---------------------------------------------------------------------------
// Building encoded buffers
// ---------------------------------------------------------------------------
/// Append one raw byte.
pub fn push_u8(out: &mut Vec<u8>, v: u8)
    ensures
        final(out)@ == old(out)@ + seq![v],
{
    out.push(v);
    assert(out@ =~= old(out)@ + seq![v]);
}

/// Append the boolean byte.
pub fn push_bool(out: &mut Vec<u8>, v: bool)
    ensures
        final(out)@ == old(out)@ + seq![bool_byte(v)],
{
    if v {
        push_u8(out, 1);
    } else {
        push_u8(out, 0);
    }
}

/// Append a 4-byte little-endian unsigned integer.
pub fn push_u32(out: &mut Vec<u8>, v: u32)
    ensures
        final(out)@ == old(out)@ + spec_u32_to_le_bytes(v),
{
    let mut bytes = u32_to_le_bytes(v);
    out.append(&mut bytes);
}

/// Append an 8-byte little-endian unsigned integer.
pub fn push_u64(out: &mut Vec<u8>, v: u64)
    ensures
        final(out)@ == old(out)@ + spec_u64_to_le_bytes(v),
{
    let mut bytes = u64_to_le_bytes(v);
    out.append(&mut bytes);
}

/// Append a string field: 4-byte little-endian byte length, then the
/// string's UTF-8 bytes.
pub fn push_str_field(out: &mut Vec<u8>, s: &str)
    requires
        str_field_fits(s@),
    ensures
        final(out)@ == old(out)@ + str_field(s@),
{
    let bytes = s.as_bytes();
    push_u32(out, bytes.len() as u32);
    out.extend_from_slice(bytes);
    assert(out@ =~= old(out)@ + str_field(s@));
}

/// The 8-byte big-endian encoding of an unsigned 64-bit integer, used as
/// seed material for comment addresses.
pub open spec fn u64_be_bytes(x: u64) -> Seq<u8> {
    Seq::new(8, |i: int| spec_u64_to_le_bytes(x)[7 - i])
}

/// Produce the big-endian bytes of a counter value.
pub fn u64_to_be_bytes(x: u64) -> (r: Vec<u8>)
    ensures
        r@ == u64_be_bytes(x),
        r@.len() == 8,
{
    proof {
        lemma_auto_spec_u64_to_from_le_bytes();
    }
    let le = u64_to_le_bytes(x);
    let mut r: Vec<u8> = Vec::new();
    let mut i: usize = 0;
    while i < 8
        invariant
            i <= 8,
            le@ == spec_u64_to_le_bytes(x),
            le@.len() == 8,
            r@.len() == i,
            forall|j: int| 0 <= j < i ==> r@[j] == le@[7 - j],
        decreases 8 - i,
    {
        r.push(le[7 - i]);
        i += 1;
    }
    assert(r@ =~= u64_be_bytes(x));
    r
}

/// Overwrite the front of a fixed-size buffer with an encoded record,
/// leaving the bytes past the encoding unchanged.
pub open spec fn write_prefix(buffer: Seq<u8>, enc: Seq<u8>) -> Seq<u8> {
    enc + buffer.skip(enc.len() as int)
}

/// The stored image of a record in its buffer.
pub fn overwrite_prefix(buffer: &[u8], enc: Vec<u8>) -> (r: Vec<u8>)
    requires
        enc@.len() <= buffer@.len(),
    ensures
        r@ == write_prefix(buffer@, enc@),
{
    let n = enc.len();
    let mut r = enc;
    let mut i = n;
    while i < buffer.len()
        invariant
            n <= i <= buffer@.len(),
            r@.len() == i,
            r@.subrange(0, n as int) == r@.subrange(0, n as int),
            forall|j: int| 0 <= j < n ==> r@[j] == enc@[j],
            forall|j: int| n <= j < i ==> r@[j] == buffer@[j],
            enc@.len() == n,
        decreases buffer@.len() - i,
    {
        r.push(*slice_index_get(buffer, i));
        i += 1;
    }
    assert(r@ =~= write_prefix(buffer@, enc@));
    r
}

// ---------------------------------------------------------------------------
// Parsing recovers what was encoded
// ---------------------------------------------------------------------------
/// A byte sitting at `i` parses back as itself.
pub proof fn lemma_parse_u8_of(b: Seq<u8>, i: int, v: u8)
    requires
        0 <= i,
        i + 1 <= b.len(),
        b[i] == v,
    ensures
        parse_u8_at(b, i) == Some((v, i + 1)),
{
}

/// A boolean byte sitting at `i` parses back as its boolean.
pub proof fn lemma_parse_bool_of(b: Seq<u8>, i: int, v: bool)
    requires
        0 <= i,
        i + 1 <= b.len(),
        b[i] == bool_byte(v),
    ensures
        parse_bool_at(b, i) == Some((v, i + 1)),
{
}

/// An encoded 64-bit integer sitting at `i` parses back as its value.
pub proof fn lemma_parse_u64_of(b: Seq<u8>, i: int, v: u64)
    requires
        0 <= i,
        i + 8 <= b.len(),
        b.subrange(i, i + 8) == spec_u64_to_le_bytes(v),
    ensures
        parse_u64_at(b, i) == Some((v, i + 8)),
{
    lemma_auto_spec_u64_to_from_le_bytes();
}

/// A 32-byte identity sitting at `i` parses back as itself.
pub proof fn lemma_parse_bytes32_of(b: Seq<u8>, i: int, v: Seq<u8>)
    requires
        0 <= i,
        v.len() == 32,
        i + 32 <= b.len(),
        b.subrange(i, i + 32) == v,
    ensures
        parse_bytes32_at(b, i) == Some((v, i + 32)),
{
}

/// An encoded string field sitting at `i` parses back as its string.
pub proof fn lemma_parse_str_of(b: Seq<u8>, i: int, s: Seq<char>)
    requires
        str_field_fits(s),
        0 <= i,
        i + str_field(s).len() <= b.len(),
        b.subrange(i, i + str_field(s).len() as int) == str_field(s),
    ensures
        parse_str_at(b, i) == Some((s, i + str_field(s).len() as int)),
{
    lemma_auto_spec_u32_to_from_le_bytes();
    let n = str_bytes(s).len() as int;
    let whole = b.subrange(i, i + str_field(s).len() as int);
    assert(b.subrange(i, i + 4) =~= whole.subrange(0, 4));
    assert(whole.subrange(0, 4) =~= spec_u32_to_le_bytes(n as u32));
    assert(parse_u32_at(b, i) == Some((n as u32, i + 4)));
    assert(b.subrange(i + 4, i + 4 + n) =~= whole.subrange(4, 4 + n));
    assert(whole.subrange(4, 4 + n) =~= str_bytes(s));
    vstd::utf8::encode_utf8_valid_utf8(s);
    vstd::utf8::encode_utf8_decode_utf8(s);
}

} // verus!
