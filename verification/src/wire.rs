//! Wire primitives: the byte-level encodings of the scalar and
//! variable-length values that packets are made of, with a matching
//! specification-level parser for each encoder and the lemmas that every
//! encoded value parses back to itself.
//!
//! All multi-byte integers are little-endian and fixed width; byte strings
//! and text carry a 64-bit byte count, text being UTF-8.

use vstd::prelude::*;
use vstd::bytes::{
    spec_u32_from_le_bytes,
    spec_u32_to_le_bytes,
    spec_u64_from_le_bytes,
    spec_u64_to_le_bytes,
    lemma_auto_spec_u32_to_from_le_bytes,
    lemma_auto_spec_u64_to_from_le_bytes,
    u32_from_le_bytes,
    u32_to_le_bytes,
    u64_from_le_bytes,
    u64_to_le_bytes,
};
use vstd::utf8::{
    decode_utf8,
    encode_utf8,
    is_scalar,
    valid_utf8,
    char_is_scalar,
    char_u32_cast,
    encode_utf8_valid_utf8,
    encode_utf8_decode_utf8,
};
use vstd::slice::{slice_subrange, slice_to_vec};
use vstd::string::StrSliceExecFns;

verus! {

// ---------------------------------------------------------------------------
// Specification-level encoders.
// ---------------------------------------------------------------------------
pub open spec fn enc_u8(v: u8) -> Seq<u8> {
    seq![v]
}

pub open spec fn enc_bool(b: bool) -> Seq<u8> {
    seq![
        if b {
            1u8
        } else {
            0u8
        },
    ]
}

pub open spec fn enc_u32(v: u32) -> Seq<u8> {
    spec_u32_to_le_bytes(v)
}

pub open spec fn enc_u64(v: u64) -> Seq<u8> {
    spec_u64_to_le_bytes(v)
}

pub open spec fn enc_i32(v: i32) -> Seq<u8> {
    spec_u32_to_le_bytes(v as u32)
}

pub open spec fn enc_char(c: char) -> Seq<u8> {
    spec_u32_to_le_bytes(c as u32)
}

pub open spec fn enc_bytes(b: Seq<u8>) -> Seq<u8> {
    enc_u64(b.len() as u64) + b
}

pub open spec fn enc_str(s: Seq<char>) -> Seq<u8> {
    enc_bytes(encode_utf8(s))
}

// ---------------------------------------------------------------------------
// Specification-level parsers. Each takes the whole buffer and a cursor and
// yields the parsed value with the cursor after it, or nothing on malformed
// or missing bytes.
// ---------------------------------------------------------------------------
pub open spec fn p_u8(s: Seq<u8>, i: int) -> Option<(u8, int)> {
    if 0 <= i && i + 1 <= s.len() {
        Some((s[i], i + 1))
    } else {
        None
    }
}

pub open spec fn p_bool(s: Seq<u8>, i: int) -> Option<(bool, int)> {
    match p_u8(s, i) {
        Some((v, j)) => if v == 0 {
            Some((false, j))
        } else if v == 1 {
            Some((true, j))
        } else {
            None
        },
        None => None,
    }
}

pub open spec fn p_u32(s: Seq<u8>, i: int) -> Option<(u32, int)> {
    if 0 <= i && i + 4 <= s.len() {
        Some((spec_u32_from_le_bytes(s.subrange(i, i + 4)), i + 4))
    } else {
        None
    }
}

pub open spec fn p_u64(s: Seq<u8>, i: int) -> Option<(u64, int)> {
    if 0 <= i && i + 8 <= s.len() {
        Some((spec_u64_from_le_bytes(s.subrange(i, i + 8)), i + 8))
    } else {
        None
    }
}

pub open spec fn p_i32(s: Seq<u8>, i: int) -> Option<(i32, int)> {
    match p_u32(s, i) {
        Some((v, j)) => Some((v as i32, j)),
        None => None,
    }
}

pub open spec fn p_char(s: Seq<u8>, i: int) -> Option<(char, int)> {
    match p_u32(s, i) {
        Some((v, j)) => if is_scalar(v) {
            Some((v as char, j))
        } else {
            None
        },
        None => None,
    }
}

pub open spec fn p_bytes(s: Seq<u8>, i: int) -> Option<(Seq<u8>, int)> {
    match p_u64(s, i) {
        Some((n, j)) => if j + n <= s.len() {
            Some((s.subrange(j, j + n), j + n))
        } else {
            None
        },
        None => None,
    }
}

pub open spec fn p_str(s: Seq<u8>, i: int) -> Option<(Seq<char>, int)> {
    match p_bytes(s, i) {
        Some((b, j)) => if valid_utf8(b) {
            Some((decode_utf8(b), j))
        } else {
            None
        },
        None => None,
    }
}

// ---------------------------------------------------------------------------
// Trusted bridges to the standard library for the two conversions vstd has
// no executable counterpart for.
// ---------------------------------------------------------------------------
/// Relies on `char::from_u32`: it returns a character exactly when the value
/// is a Unicode scalar value, and that character casts back to the value.
#[verifier::external_body]
fn u32_to_char(v: u32) -> (r: Option<char>)
    ensures
        match r {
            Some(c) => is_scalar(v) && c as u32 == v,
            None => !is_scalar(v),
        },
{
    char::from_u32(v)
}

/// Relies on `str::from_utf8`: it accepts exactly the valid UTF-8 byte
/// strings and decodes them; `str::to_owned` copies the text.
#[verifier::external_body]
fn bytes_to_string(b: &Vec<u8>) -> (r: Option<String>)
    ensures
        match r {
            Some(t) => valid_utf8(b@) && t@ == decode_utf8(b@),
            None => !valid_utf8(b@),
        },
{
    match core::str::from_utf8(b.as_slice()) {
        Ok(t) => Some(t.to_owned()),
        Err(_) => None,
    }
}

// ---------------------------------------------------------------------------
// Executable readers, each exactly the matching specification parser.
// ---------------------------------------------------------------------------
pub fn read_u8(s: &Vec<u8>, i: usize) -> (r: Option<(u8, usize)>)
    ensures
        match r {
            Some((v, j)) => p_u8(s@, i as int) == Some((v, j as int)),
            None => p_u8(s@, i as int) is None,
        },
{
    if i < s.len() {
        Some((s[i], i + 1))
    } else {
        None
    }
}

pub fn read_bool(s: &Vec<u8>, i: usize) -> (r: Option<(bool, usize)>)
    ensures
        match r {
            Some((v, j)) => p_bool(s@, i as int) == Some((v, j as int)),
            None => p_bool(s@, i as int) is None,
        },
{
    match read_u8(s, i) {
        Some((v, j)) => if v == 0 {
            Some((false, j))
        } else if v == 1 {
            Some((true, j))
        } else {
            None
        },
        None => None,
    }
}

pub fn read_u32(s: &Vec<u8>, i: usize) -> (r: Option<(u32, usize)>)
    ensures
        match r {
            Some((v, j)) => p_u32(s@, i as int) == Some((v, j as int)),
            None => p_u32(s@, i as int) is None,
        },
{
    if i <= s.len() && s.len() - i >= 4 {
        let sl = slice_subrange(s.as_slice(), i, i + 4);
        Some((u32_from_le_bytes(sl), i + 4))
    } else {
        None
    }
}

pub fn read_u64(s: &Vec<u8>, i: usize) -> (r: Option<(u64, usize)>)
    ensures
        match r {
            Some((v, j)) => p_u64(s@, i as int) == Some((v, j as int)),
            None => p_u64(s@, i as int) is None,
        },
{
    if i <= s.len() && s.len() - i >= 8 {
        let sl = slice_subrange(s.as_slice(), i, i + 8);
        Some((u64_from_le_bytes(sl), i + 8))
    } else {
        None
    }
}

pub fn read_i32(s: &Vec<u8>, i: usize) -> (r: Option<(i32, usize)>)
    ensures
        match r {
            Some((v, j)) => p_i32(s@, i as int) == Some((v, j as int)),
            None => p_i32(s@, i as int) is None,
        },
{
    match read_u32(s, i) {
        Some((v, j)) => Some((#[verifier::truncate] (v as i32), j)),
        None => None,
    }
}

pub fn read_char(s: &Vec<u8>, i: usize) -> (r: Option<(char, usize)>)
    ensures
        match r {
            Some((v, j)) => p_char(s@, i as int) == Some((v, j as int)),
            None => p_char(s@, i as int) is None,
        },
{
    match read_u32(s, i) {
        Some((v, j)) => match u32_to_char(v) {
            Some(c) => {
                proof {
                    char_u32_cast(c, v);
                }
                Some((c, j))
            },
            None => None,
        },
        None => None,
    }
}

pub fn read_bytes(s: &Vec<u8>, i: usize) -> (r: Option<(Vec<u8>, usize)>)
    ensures
        match r {
            Some((b, j)) => p_bytes(s@, i as int) == Some((b@, j as int)),
            None => p_bytes(s@, i as int) is None,
        },
{
    match read_u64(s, i) {
        Some((n, j)) => {
            if n <= (s.len() - j) as u64 {
                let m = n as usize;
                let sl = slice_subrange(s.as_slice(), j, j + m);
                let b = slice_to_vec(sl);
                Some((b, j + m))
            } else {
                None
            }
        },
        None => None,
    }
}

pub fn read_str(s: &Vec<u8>, i: usize) -> (r: Option<(String, usize)>)
    ensures
        match r {
            Some((t, j)) => p_str(s@, i as int) == Some((t@, j as int)),
            None => p_str(s@, i as int) is None,
        },
{
    match read_bytes(s, i) {
        Some((b, j)) => match bytes_to_string(&b) {
            Some(t) => Some((t, j)),
            None => None,
        },
        None => None,
    }
}

// ---------------------------------------------------------------------------
// Executable writers, each appending exactly the matching encoder's bytes.
// ---------------------------------------------------------------------------
pub fn write_u8(out: &mut Vec<u8>, v: u8)
    ensures
        final(out)@ == old(out)@ + enc_u8(v),
{
    out.push(v);
    proof {
        assert(out@ =~= old(out)@ + enc_u8(v));
    }
}

pub fn write_bool(out: &mut Vec<u8>, b: bool)
    ensures
        final(out)@ == old(out)@ + enc_bool(b),
{
    write_u8(out, if b { 1 } else { 0 });
}

pub fn write_u32(out: &mut Vec<u8>, v: u32)
    ensures
        final(out)@ == old(out)@ + enc_u32(v),
{
    let mut bytes = u32_to_le_bytes(v);
    out.append(&mut bytes);
}

pub fn write_u64(out: &mut Vec<u8>, v: u64)
    ensures
        final(out)@ == old(out)@ + enc_u64(v),
{
    let mut bytes = u64_to_le_bytes(v);
    out.append(&mut bytes);
}

pub fn write_i32(out: &mut Vec<u8>, v: i32)
    ensures
        final(out)@ == old(out)@ + enc_i32(v),
{
    write_u32(out, #[verifier::truncate] (v as u32));
}

pub fn write_char(out: &mut Vec<u8>, c: char)
    ensures
        final(out)@ == old(out)@ + enc_char(c),
{
    write_u32(out, c as u32);
}

pub fn write_bytes(out: &mut Vec<u8>, b: &Vec<u8>)
    ensures
        final(out)@ == old(out)@ + enc_bytes(b@),
{
    write_u64(out, b.len() as u64);
    out.extend_from_slice(b.as_slice());
    proof {
        assert(out@ =~= old(out)@ + enc_bytes(b@));
    }
}

pub fn write_str(out: &mut Vec<u8>, s: &String)
    ensures
        final(out)@ == old(out)@ + enc_str(s@),
{
    let bytes = s.as_str().as_bytes_vec();
    write_bytes(out, &bytes);
}

// ---------------------------------------------------------------------------
// Parse-after-encode lemmas. Each states that a buffer whose tail starts
// with an encoded value parses to that value, leaving the rest.
// ---------------------------------------------------------------------------
/// Splitting a known concatenation out of a buffer tail.
proof fn lemma_subrange_concat(s: Seq<u8>, i: int, a: Seq<u8>, rest: Seq<u8>)
    requires
        0 <= i <= s.len(),
        s.subrange(i, s.len() as int) == a + rest,
    ensures
        i + a.len() <= s.len(),
        s.subrange(i, i + a.len()) == a,
        s.subrange(i + a.len(), s.len() as int) == rest,
{
    let t = s.subrange(i, s.len() as int);
    assert(t.len() == a.len() + rest.len());
    assert(s.subrange(i, i + a.len()) =~= a);
    assert forall|k: int| 0 <= k < rest.len() implies s.subrange(
        i + a.len(),
        s.len() as int,
    )[k] == rest[k] by {
        assert(s.subrange(i + a.len(), s.len() as int)[k] == s[i + a.len() + k]);
        assert(t[a.len() + k] == s[i + a.len() + k]);
        assert(t[a.len() + k] == (a + rest)[a.len() + k]);
    }
    assert(s.subrange(i + a.len(), s.len() as int) =~= rest);
}

pub proof fn lemma_parse_u8(s: Seq<u8>, i: int, v: u8, rest: Seq<u8>)
    requires
        0 <= i <= s.len(),
        s.subrange(i, s.len() as int) == enc_u8(v) + rest,
    ensures
        p_u8(s, i) == Some((v, i + 1)),
        i + 1 <= s.len(),
        s.subrange(i + 1, s.len() as int) == rest,
{
    lemma_subrange_concat(s, i, enc_u8(v), rest);
    assert(s[i] == s.subrange(i, i + 1)[0]);
}

pub proof fn lemma_parse_bool(s: Seq<u8>, i: int, b: bool, rest: Seq<u8>)
    requires
        0 <= i <= s.len(),
        s.subrange(i, s.len() as int) == enc_bool(b) + rest,
    ensures
        p_bool(s, i) == Some((b, i + 1)),
        i + 1 <= s.len(),
        s.subrange(i + 1, s.len() as int) == rest,
{
    if b {
        assert(enc_bool(b) == enc_u8(1u8));
        lemma_parse_u8(s, i, 1u8, rest);
    } else {
        assert(enc_bool(b) == enc_u8(0u8));
        lemma_parse_u8(s, i, 0u8, rest);
    }
}

pub proof fn lemma_parse_u32(s: Seq<u8>, i: int, v: u32, rest: Seq<u8>)
    requires
        0 <= i <= s.len(),
        s.subrange(i, s.len() as int) == enc_u32(v) + rest,
    ensures
        p_u32(s, i) == Some((v, i + 4)),
        i + 4 <= s.len(),
        s.subrange(i + 4, s.len() as int) == rest,
{
    lemma_auto_spec_u32_to_from_le_bytes();
    lemma_subrange_concat(s, i, enc_u32(v), rest);
}

pub proof fn lemma_parse_u64(s: Seq<u8>, i: int, v: u64, rest: Seq<u8>)
    requires
        0 <= i <= s.len(),
        s.subrange(i, s.len() as int) == enc_u64(v) + rest,
    ensures
        p_u64(s, i) == Some((v, i + 8)),
        i + 8 <= s.len(),
        s.subrange(i + 8, s.len() as int) == rest,
{
    lemma_auto_spec_u64_to_from_le_bytes();
    lemma_subrange_concat(s, i, enc_u64(v), rest);
}

pub proof fn lemma_parse_i32(s: Seq<u8>, i: int, v: i32, rest: Seq<u8>)
    requires
        0 <= i <= s.len(),
        s.subrange(i, s.len() as int) == enc_i32(v) + rest,
    ensures
        p_i32(s, i) == Some((v, i + 4)),
        i + 4 <= s.len(),
        s.subrange(i + 4, s.len() as int) == rest,
{
    lemma_parse_u32(s, i, v as u32, rest);
    assert(((v as u32) as i32) == v) by (bit_vector);
}

pub proof fn lemma_parse_char(s: Seq<u8>, i: int, c: char, rest: Seq<u8>)
    requires
        0 <= i <= s.len(),
        s.subrange(i, s.len() as int) == enc_char(c) + rest,
    ensures
        p_char(s, i) == Some((c, i + 4)),
        i + 4 <= s.len(),
        s.subrange(i + 4, s.len() as int) == rest,
{
    lemma_parse_u32(s, i, c as u32, rest);
    char_is_scalar(c);
    char_u32_cast(c, c as u32);
}

pub proof fn lemma_parse_bytes(s: Seq<u8>, i: int, b: Seq<u8>, rest: Seq<u8>)
    requires
        0 <= i <= s.len(),
        b.len() < 0x1_0000_0000_0000_0000,
        s.subrange(i, s.len() as int) == enc_bytes(b) + rest,
    ensures
        p_bytes(s, i) == Some((b, i + 8 + b.len())),
        i + 8 + b.len() <= s.len(),
        s.subrange(i + 8 + b.len(), s.len() as int) == rest,
{
    let n = b.len() as u64;
    assert(s.subrange(i, s.len() as int) == enc_u64(n) + (b + rest));
    lemma_parse_u64(s, i, n, b + rest);
    lemma_subrange_concat(s, i + 8, b, rest);
}

pub proof fn lemma_parse_str(s: Seq<u8>, i: int, cs: Seq<char>, rest: Seq<u8>)
    requires
        0 <= i <= s.len(),
        encode_utf8(cs).len() < 0x1_0000_0000_0000_0000,
        s.subrange(i, s.len() as int) == enc_str(cs) + rest,
    ensures
        p_str(s, i) == Some((cs, i + 8 + encode_utf8(cs).len())),
        i + 8 + encode_utf8(cs).len() <= s.len(),
        s.subrange(i + 8 + encode_utf8(cs).len(), s.len() as int) == rest,
{
    lemma_parse_bytes(s, i, encode_utf8(cs), rest);
    encode_utf8_valid_utf8(cs);
    encode_utf8_decode_utf8(cs);
}

} // verus!
