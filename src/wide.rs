//! Narrow (UTF-8) strings turned into the wide (UTF-16) strings the OS takes.
#![allow(non_snake_case)]
use vstd::prelude::*;
use vstd::utf8::{decode_utf8, valid_utf8};

verus! {

/// The UTF-16 code units of one character.
pub open spec fn utf16_of_char(c: char) -> Seq<u16> {
    let v = c as u32;
    if v < 0x1_0000 {
        seq![v as u16]
    } else {
        let u = (v - 0x1_0000) as u32;
        seq![(0xD800 + u / 0x400) as u16, (0xDC00 + u % 0x400) as u16]
    }
}

/// The UTF-16 encoding of a character sequence.
pub open spec fn utf16_encode(cs: Seq<char>) -> Seq<u16>
    decreases cs.len(),
{
    if cs.len() == 0 {
        Seq::empty()
    } else {
        utf16_of_char(cs[0]) + utf16_encode(cs.drop_first())
    }
}

/// The wide form of a narrow string: defined exactly for valid UTF-8.
pub open spec fn wide_of(b: Seq<u8>) -> Option<Seq<u16>> {
    if valid_utf8(b) {
        Some(utf16_encode(decode_utf8(b)))
    } else {
        None
    }
}

/// The characters that UTF-16 code units encode: a high surrogate followed
/// by a low one is one character; any other unit stands for itself.
pub open spec fn utf16_decode(units: Seq<u16>) -> Seq<char>
    decreases units.len(),
{
    if units.len() == 0 {
        Seq::empty()
    } else if units.len() >= 2 && 0xD800 <= units[0] < 0xDC00 && 0xDC00 <= units[1] < 0xE000 {
        let v = (0x1_0000 + (units[0] - 0xD800) * 0x400 + (units[1] - 0xDC00)) as u32;
        seq![v as char] + utf16_decode(units.subrange(2, units.len() as int))
    } else {
        seq![units[0] as u32 as char] + utf16_decode(units.drop_first())
    }
}

/// Relies on `str::from_utf8`: it accepts exactly the valid UTF-8 byte
/// sequences, and the string it gives holds the characters they encode.
#[verifier::external_body]
fn str_from_utf8(bytes: &[u8]) -> (r: Option<&str>)
    ensures
        r is Some <==> valid_utf8(bytes@),
        r matches Some(s) ==> s@ == decode_utf8(bytes@),
{
    std::str::from_utf8(bytes).ok()
}

/// Relies on `str::encode_utf16`: the UTF-16 code units of the string's
/// characters, in order.
#[verifier::external_body]
fn encode_utf16(s: &str) -> (r: Vec<u16>)
    ensures
        r@ == utf16_encode(s@),
{
    s.encode_utf16().collect()
}

/// Whether `bytes` is UTF-8.
pub fn is_utf8(bytes: &[u8]) -> (r: bool)
    ensures
        r == valid_utf8(bytes@),
{
    str_from_utf8(bytes).is_some()
}

/// The UTF-16 form of a UTF-8 string (callers test [`is_utf8`] first).
pub fn NarrowToWide(narrow: Vec<u8>) -> (r: Vec<u16>)
    requires
        valid_utf8(narrow@),
    ensures
        Some(r@) == wide_of(narrow@),
        utf16_decode(r@) == decode_utf8(narrow@),
{
    let r = match str_from_utf8(narrow.as_slice()) {
        Some(s) => encode_utf16(s),
        None => Vec::new(),
    };
    proof {
        lemma_utf16_round_trip(decode_utf8(narrow@));
    }
    r
}

/// [`NarrowToWide`] on a string that may be absent; absent stays absent.
pub fn OptionNarrowToWide(narrow: Option<Vec<u8>>) -> (r: Option<Vec<u16>>)
    requires
        narrow matches Some(b) ==> valid_utf8(b@),
    ensures
        narrow is None ==> r is None,
        narrow matches Some(b) ==> r matches Some(w) && Some(w@) == wide_of(b@),
{
    match narrow {
        None => None,
        Some(x) => Some(NarrowToWide(x)),
    }
}

/// [`NarrowToWide`] on each string of a list, in order.
pub fn VecNarrowToWide(narrow: Vec<Vec<u8>>) -> (r: Vec<Vec<u16>>)
    requires
        forall|i: int| 0 <= i < narrow@.len() ==> valid_utf8(#[trigger] narrow@[i]@),
    ensures
        r@.len() == narrow@.len(),
        forall|i: int| 0 <= i < narrow@.len() ==> Some(#[trigger] r@[i]@) == wide_of(narrow@[i]@),
{
    let mut out: Vec<Vec<u16>> = Vec::new();
    let mut i: usize = 0;
    while i < narrow.len()
        invariant
            i <= narrow@.len(),
            out@.len() == i,
            forall|j: int| 0 <= j < narrow@.len() ==> valid_utf8(#[trigger] narrow@[j]@),
            forall|j: int| 0 <= j < i ==> Some(#[trigger] out@[j]@) == wide_of(narrow@[j]@),
        decreases narrow@.len() - i,
    {
        let b = narrow[i].clone();
        out.push(NarrowToWide(b));
        i = i + 1;
    }
    out
}

/// A character's code is a Unicode scalar value, which names it.
proof fn lemma_scalar_value(c: char)
    ensures
        (c as u32) < 0xD800 || (0xE000 <= (c as u32) && (c as u32) <= 0x10FFFF),
        (c as u32) as char == c,
{
}

/// Decoding the UTF-16 encoding of a character sequence gives the sequence
/// back.
pub proof fn lemma_utf16_round_trip(cs: Seq<char>)
    ensures
        utf16_decode(utf16_encode(cs)) == cs,
    decreases cs.len(),
{
    if cs.len() > 0 {
        let c = cs[0];
        let rest = cs.drop_first();
        lemma_utf16_round_trip(rest);
        let head = utf16_of_char(c);
        let units = head + utf16_encode(rest);
        let v = c as u32;
        lemma_scalar_value(c);
        if v < 0x1_0000 {
            assert(units.drop_first() =~= utf16_encode(rest));
            assert(units[0] == v as u16);
            assert(units[0] as u32 == v);
        } else {
            let u = (v - 0x1_0000) as u32;
            let hi = u / 0x400;
            let lo = u % 0x400;
            assert(hi < 0x400 && lo < 0x400 && u == hi * 0x400 + lo);
            assert(units[0] == (0xD800 + hi) as u16);
            assert(units[1] == (0xDC00 + lo) as u16);
            assert(units[0] as int == 0xD800 + hi);
            assert(units[1] as int == 0xDC00 + lo);
            assert(units.subrange(2, units.len() as int) =~= utf16_encode(rest));
            assert(0x1_0000 + (units[0] - 0xD800) * 0x400 + (units[1] - 0xDC00) == v as int);
        }
        assert(seq![c] + rest =~= cs);
    }
}

} // verus!
