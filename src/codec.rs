//! Little-endian binary layout of account fields: fixed-width integers,
//! one-byte booleans, raw 32-byte keys and length-prefixed UTF-8 strings.
use vstd::prelude::*;
use vstd::bytes::{
    spec_u32_to_le_bytes, spec_u64_from_le_bytes, spec_u64_to_le_bytes, u32_to_le_bytes,
    u64_from_le_bytes, u64_to_le_bytes, lemma_auto_spec_u64_to_from_le_bytes,
    lemma_auto_spec_u32_to_from_le_bytes,
};
use vstd::slice::slice_subrange;
use vstd::bytes::{spec_u32_from_le_bytes, u32_from_le_bytes};
use vstd::utf8::{decode_utf8, encode_utf8, encode_utf8_decode_utf8, valid_utf8};
use crate::key::Pubkey;

verus! {

pub open spec fn u64_bytes(x: u64) -> Seq<u8> {
    spec_u64_to_le_bytes(x)
}

/// A signed integer is laid out as the two's complement bit pattern.
pub open spec fn i64_bytes(x: i64) -> Seq<u8> {
    spec_u64_to_le_bytes(x as u64)
}

pub open spec fn bool_bytes(b: bool) -> Seq<u8> {
    seq![if b { 1u8 } else { 0u8 }]
}

/// A string is its UTF-8 length as a 4-byte little-endian count, then its UTF-8 bytes.
pub open spec fn string_bytes(s: Seq<char>) -> Seq<u8> {
    spec_u32_to_le_bytes(encode_utf8(s).len() as u32) + encode_utf8(s)
}

/// Number of UTF-8 bytes of a string.
pub open spec fn utf8_len(s: Seq<char>) -> nat {
    encode_utf8(s).len()
}

/// The 4-byte little-endian count at `pos`.
pub open spec fn u32_at(data: Seq<u8>, pos: int) -> int {
    spec_u32_from_le_bytes(data.subrange(pos, pos + 4)) as int
}

/// The unsigned integer at `pos`.
pub open spec fn u64_at(data: Seq<u8>, pos: int) -> u64 {
    spec_u64_from_le_bytes(data.subrange(pos, pos + 8))
}

/// The signed integer at `pos`, read from its two's complement bit pattern.
pub open spec fn i64_at(data: Seq<u8>, pos: int) -> i64 {
    u64_at(data, pos) as i64
}

/// The key at `pos`.
pub open spec fn key_at(data: Seq<u8>, pos: int) -> Seq<u8> {
    data.subrange(pos, pos + 32)
}

/// The boolean at `pos`.
pub open spec fn bool_at(data: Seq<u8>, pos: int) -> bool {
    data[pos] == 1
}

/// The characters of the length-prefixed string at `pos`.
pub open spec fn string_at(data: Seq<u8>, pos: int) -> Seq<char> {
    decode_utf8(data.subrange(pos + 4, string_end(data, pos)))
}

/// Where the length-prefixed string that starts at `pos` ends.
pub open spec fn string_end(data: Seq<u8>, pos: int) -> int {
    pos + 4 + u32_at(data, pos)
}

/// Whether a length-prefixed string with valid UTF-8 contents starts at `pos`.
pub open spec fn string_fits_at(data: Seq<u8>, pos: int) -> bool {
    &&& pos + 4 <= data.len()
    &&& string_end(data, pos) <= data.len()
    &&& valid_utf8(data.subrange(pos + 4, string_end(data, pos)))
}

/// Equal encodings come from equal strings.
pub proof fn lemma_string_bytes_injective(s: Seq<char>, t: Seq<char>, rest_s: Seq<u8>, rest_t: Seq<u8>)
    requires
        string_bytes(s) + rest_s == string_bytes(t) + rest_t,
        utf8_len(s) <= u32::MAX,
        utf8_len(t) <= u32::MAX,
    ensures
        s == t,
        rest_s == rest_t,
{
    lemma_auto_spec_u32_to_from_le_bytes();
    let x = string_bytes(s) + rest_s;
    let y = string_bytes(t) + rest_t;
    let ls = encode_utf8(s).len() as u32;
    let lt = encode_utf8(t).len() as u32;
    assert(spec_u32_to_le_bytes(ls) == x.subrange(0, 4));
    assert(spec_u32_to_le_bytes(lt) == y.subrange(0, 4));
    assert(ls == lt);
    assert(encode_utf8(s) == x.subrange(4, 4 + ls));
    assert(encode_utf8(t) == y.subrange(4, 4 + lt));
    assert(rest_s == x.subrange(4 + ls, x.len() as int));
    assert(rest_t == y.subrange(4 + lt, y.len() as int));
    encode_utf8_decode_utf8(s);
    encode_utf8_decode_utf8(t);
}

pub proof fn lemma_fixed_lens(x: u64, y: i64, b: bool, n: u32)
    ensures
        u64_bytes(x).len() == 8,
        i64_bytes(y).len() == 8,
        bool_bytes(b).len() == 1,
        spec_u32_to_le_bytes(n).len() == 4,
{
    lemma_auto_spec_u64_to_from_le_bytes();
    lemma_auto_spec_u32_to_from_le_bytes();
}

pub proof fn lemma_i64_bytes_injective(x: i64, y: i64)
    requires
        i64_bytes(x) == i64_bytes(y),
    ensures
        x == y,
{
    lemma_auto_spec_u64_to_from_le_bytes();
    assert(spec_u64_from_le_bytes(spec_u64_to_le_bytes(x as u64)) == x as u64);
    assert(spec_u64_from_le_bytes(spec_u64_to_le_bytes(y as u64)) == y as u64);
    assert(x as u64 == y as u64);
    assert(x == y) by (bit_vector)
        requires
            x as u64 == y as u64,
    ;
}

/// Byte-wise equality of two byte strings.
pub fn bytes_equal(a: &[u8], b: &[u8]) -> (r: bool)
    ensures
        r == (a@ == b@),
{
    if a.len() != b.len() {
        return false;
    }
    let mut i: usize = 0;
    while i < a.len()
        invariant
            i <= a@.len(),
            a@.len() == b@.len(),
            a@.subrange(0, i as int) == b@.subrange(0, i as int),
        decreases a@.len() - i,
    {
        if a[i] != b[i] {
            assert(a@[i as int] != b@[i as int]);
            return false;
        }
        assert(a@.subrange(0, i + 1) =~= a@.subrange(0, i as int).push(a@[i as int]));
        assert(b@.subrange(0, i + 1) =~= b@.subrange(0, i as int).push(b@[i as int]));
        i = i + 1;
    }
    assert(a@ =~= a@.subrange(0, i as int));
    assert(b@ =~= b@.subrange(0, i as int));
    true
}

/// Appends `data` to `out`.
pub fn append_bytes(out: &mut Vec<u8>, data: &[u8])
    ensures
        final(out)@ == old(out)@ + data@,
{
    let mut i: usize = 0;
    while i < data.len()
        invariant
            i <= data@.len(),
            out@ == old(out)@ + data@.subrange(0, i as int),
        decreases data@.len() - i,
    {
        out.push(data[i]);
        assert(data@.subrange(0, i + 1) =~= data@.subrange(0, i as int).push(data@[i as int]));
        i = i + 1;
    }
    assert(data@.subrange(0, data@.len() as int) =~= data@);
}

pub fn write_u64(out: &mut Vec<u8>, x: u64)
    ensures
        final(out)@ == old(out)@ + u64_bytes(x),
{
    let v = u64_to_le_bytes(x);
    append_bytes(out, v.as_slice());
}

pub fn write_i64(out: &mut Vec<u8>, x: i64)
    ensures
        final(out)@ == old(out)@ + i64_bytes(x),
{
    let v = u64_to_le_bytes(#[verifier::truncate] (x as u64));
    append_bytes(out, v.as_slice());
}

pub fn write_bool(out: &mut Vec<u8>, b: bool)
    ensures
        final(out)@ == old(out)@ + bool_bytes(b),
{
    out.push(if b { 1u8 } else { 0u8 });
    assert(final(out)@ =~= old(out)@ + bool_bytes(b));
}

pub fn write_key(out: &mut Vec<u8>, k: &Pubkey)
    ensures
        final(out)@ == old(out)@ + k@,
{
    let v = k.to_vec();
    append_bytes(out, v.as_slice());
}

/// Writes a length-prefixed string; its UTF-8 length must fit the 4-byte count.
pub fn write_string(out: &mut Vec<u8>, s: &String)
    requires
        utf8_len(s@) <= u32::MAX,
    ensures
        final(out)@ == old(out)@ + string_bytes(s@),
{
    let b = s.as_str().as_bytes();
    let n = b.len() as u32;
    let prefix = u32_to_le_bytes(n);
    append_bytes(out, prefix.as_slice());
    append_bytes(out, b);
    assert(final(out)@ =~= old(out)@ + string_bytes(s@));
}

/// Relies on std::str::from_utf8: it succeeds exactly on valid UTF-8, and the
/// string then holds those bytes.
#[verifier::external_body]
fn utf8_to_string(b: &[u8]) -> (r: Option<String>)
    ensures
        r is Some <==> valid_utf8(b@),
        r matches Some(s) ==> encode_utf8(s@) == b@,
{
    std::str::from_utf8(b).ok().map(|s| s.to_string())
}

/// Reads the length-prefixed string at `pos` and the position after it.
pub fn read_string(data: &[u8], pos: usize) -> (r: Option<(String, usize)>)
    ensures
        r is Some <==> string_fits_at(data@, pos as int),
        r matches Some((s, end)) ==> end == string_end(data@, pos as int) && string_bytes(s@)
            == data@.subrange(pos as int, end as int),
        r matches Some((s, _)) ==> s@ == string_at(data@, pos as int),
{
    let n = data.len();
    if pos > n || n - pos < 4 {
        return None;
    }
    let len = u32_from_le_bytes(slice_subrange(data, pos, pos + 4)) as usize;
    assert(len == u32_at(data@, pos as int));
    if n - pos - 4 < len {
        return None;
    }
    let end = pos + 4 + len;
    let contents = slice_subrange(data, pos + 4, end);
    match utf8_to_string(contents) {
        None => None,
        Some(s) => {
            proof {
                lemma_auto_spec_u32_to_from_le_bytes();
                assert(spec_u32_to_le_bytes(len as u32) == data@.subrange(pos as int, pos + 4));
                assert(string_bytes(s@) =~= data@.subrange(pos as int, end as int));
                encode_utf8_decode_utf8(s@);
            }
            Some((s, end))
        },
    }
}

pub fn read_u64(data: &[u8], pos: usize) -> (r: u64)
    requires
        pos + 8 <= data@.len(),
    ensures
        u64_bytes(r) == data@.subrange(pos as int, pos + 8),
        r == u64_at(data@, pos as int),
{
    let _n = data.len();
    let s = slice_subrange(data, pos, pos + 8);
    let r = u64_from_le_bytes(s);
    proof {
        lemma_auto_spec_u64_to_from_le_bytes();
    }
    r
}

pub fn read_i64(data: &[u8], pos: usize) -> (r: i64)
    requires
        pos + 8 <= data@.len(),
    ensures
        i64_bytes(r) == data@.subrange(pos as int, pos + 8),
        r == i64_at(data@, pos as int),
{
    let u = read_u64(data, pos);
    let r = #[verifier::truncate] (u as i64);
    assert(r as u64 == u) by (bit_vector)
        requires
            r == #[verifier::truncate] (u as i64),
    ;
    r
}

/// Reads a boolean byte: 0 and 1 are the only valid values.
pub fn read_bool(data: &[u8], pos: usize) -> (r: Option<bool>)
    requires
        pos < data@.len(),
    ensures
        r is Some <==> data@[pos as int] <= 1,
        r matches Some(b) ==> bool_bytes(b) == data@.subrange(pos as int, pos + 1),
        r matches Some(b) ==> b == bool_at(data@, pos as int),
{
    let x = data[pos];
    if x == 0 {
        assert(bool_bytes(false) =~= data@.subrange(pos as int, pos + 1));
        Some(false)
    } else if x == 1 {
        assert(bool_bytes(true) =~= data@.subrange(pos as int, pos + 1));
        Some(true)
    } else {
        None
    }
}

pub fn read_key(data: &[u8], pos: usize) -> (r: Pubkey)
    requires
        pos + 32 <= data@.len(),
    ensures
        r@ == data@.subrange(pos as int, pos + 32),
{
    let mut bytes = [0u8; 32];
    let mut i: usize = 0;
    while i < 32
        invariant
            i <= 32,
            pos + 32 <= data.len(),
            bytes@.len() == 32,
            forall|j: int| 0 <= j < i ==> bytes@[j] == data@[pos + j],
        decreases 32 - i,
    {
        bytes[i] = data[pos + i];
        i = i + 1;
    }
    let r = Pubkey { bytes };
    assert(r@ =~= data@.subrange(pos as int, pos + 32));
    r
}

} // verus!
