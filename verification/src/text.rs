//! Decoding of the two text encodings a `.lnk` file can hold: narrow (ANSI,
//! decoded as UTF-8) and wide (UTF-16, little-endian).
//!
//! UTF-8 is specified by `vstd::utf8`; UTF-16 is specified here. The two
//! executable decoders call into outside code through one trusted wrapper
//! each; everything else is verified against the specifications.

use vstd::prelude::*;
use vstd::utf8::{decode_utf8, valid_utf8};

verus! {

/// True when `u` lies in the UTF-16 high-surrogate range.
pub open spec fn is_high_surrogate(u: u16) -> bool {
    0xD800 <= u <= 0xDBFF
}

/// True when `u` lies in the UTF-16 low-surrogate range.
pub open spec fn is_low_surrogate(u: u16) -> bool {
    0xDC00 <= u <= 0xDFFF
}

/// The Unicode scalar encoded by the surrogate pair (`hi`, `lo`).
pub open spec fn surrogate_scalar(hi: u16, lo: u16) -> u32
    recommends
        is_high_surrogate(hi),
        is_low_surrogate(lo),
{
    (0x10000 + (hi - 0xD800) * 0x400 + (lo - 0xDC00)) as u32
}

/// True when the units form a valid UTF-16 sequence: every unit is either a
/// non-surrogate or the start of a high/low surrogate pair.
pub open spec fn valid_utf16(units: Seq<u16>) -> bool
    decreases units.len(),
{
    if units.len() == 0 {
        true
    } else if !is_high_surrogate(units[0]) && !is_low_surrogate(units[0]) {
        valid_utf16(units.drop_first())
    } else if is_high_surrogate(units[0]) && units.len() >= 2 && is_low_surrogate(units[1]) {
        valid_utf16(units.skip(2))
    } else {
        false
    }
}

/// The characters encoded by the units, assuming they form valid UTF-16.
pub open spec fn decode_utf16(units: Seq<u16>) -> Seq<char>
    recommends
        valid_utf16(units),
    decreases units.len(),
{
    if units.len() == 0 {
        seq![]
    } else if !is_high_surrogate(units[0]) && !is_low_surrogate(units[0]) {
        seq![(units[0] as u32) as char] + decode_utf16(units.drop_first())
    } else if is_high_surrogate(units[0]) && units.len() >= 2 && is_low_surrogate(units[1]) {
        seq![surrogate_scalar(units[0], units[1]) as char] + decode_utf16(units.skip(2))
    } else {
        seq![]
    }
}

/// The UTF-16 encoding of one character.
pub open spec fn encode_utf16_char(c: char) -> Seq<u16> {
    let v = c as u32;
    if v < 0x10000 {
        seq![v as u16]
    } else {
        seq![
            ((v - 0x10000) / 0x400 + 0xD800) as u16,
            ((v - 0x10000) % 0x400 + 0xDC00) as u16,
        ]
    }
}

/// The UTF-16 encoding of a character sequence.
pub open spec fn encode_utf16(t: Seq<char>) -> Seq<u16>
    decreases t.len(),
{
    if t.len() == 0 {
        seq![]
    } else {
        encode_utf16_char(t[0]) + encode_utf16(t.drop_first())
    }
}

/// The 16-bit units of a byte sequence, each from a little-endian pair; a
/// trailing odd byte is dropped.
pub open spec fn units_of(b: Seq<u8>) -> Seq<u16> {
    Seq::new(b.len() / 2, |i: int| (b[2 * i] + 0x100 * b[2 * i + 1]) as u16)
}

/// The little-endian bytes of a sequence of 16-bit units.
pub open spec fn bytes_of_units(u: Seq<u16>) -> Seq<u8> {
    Seq::new(
        2 * u.len(),
        |i: int|
            if i % 2 == 0 {
                (u[i / 2] % 0x100) as u8
            } else {
                (u[i / 2] / 0x100) as u8
            },
    )
}

/// Pairing the little-endian bytes of a unit sequence recovers the units.
pub proof fn lemma_units_of_bytes_of_units(u: Seq<u16>)
    ensures
        units_of(bytes_of_units(u)) == u,
{
    let b = bytes_of_units(u);
    assert forall|i: int| 0 <= i < u.len() implies units_of(b)[i] == u[i] by {
        assert((2 * i) % 2 == 0 && (2 * i) / 2 == i && (2 * i + 1) % 2 == 1 && (2 * i + 1) / 2
            == i);
        vstd::arithmetic::div_mod::lemma_fundamental_div_mod(u[i] as int, 0x100);
    }
    assert(units_of(b) =~= u);
}

/// True when every byte is in the ASCII range.
pub open spec fn ascii_bytes(b: Seq<u8>) -> bool {
    forall|i: int| 0 <= i < b.len() ==> b[i] < 0x80
}

/// True when every unit is in the ASCII range.
pub open spec fn ascii_units(u: Seq<u16>) -> bool {
    forall|i: int| 0 <= i < u.len() ==> u[i] < 0x80
}

/// The characters of a byte sequence read one character per byte.
pub open spec fn chars_of_ascii(b: Seq<u8>) -> Seq<char> {
    Seq::new(b.len(), |i: int| (b[i] as u32) as char)
}

/// The characters of a unit sequence read one character per unit.
pub open spec fn chars_of_ascii_units(u: Seq<u16>) -> Seq<char> {
    Seq::new(u.len(), |i: int| (u[i] as u32) as char)
}

/// Result of interpreting bytes as narrow text: the decoded characters, or
/// absent when the bytes are not valid text.
pub open spec fn spec_ansi_text(b: Seq<u8>) -> Option<Seq<char>> {
    if valid_utf8(b) {
        Some(decode_utf8(b))
    } else {
        None
    }
}

/// Result of interpreting units as wide text: the decoded characters, or
/// absent when the units are not valid UTF-16.
pub open spec fn spec_unit_text(u: Seq<u16>) -> Option<Seq<char>> {
    if valid_utf16(u) {
        Some(decode_utf16(u))
    } else {
        None
    }
}

/// Result of interpreting bytes as wide text: the bytes are paired into
/// little-endian units and decoded as UTF-16, or absent when invalid.
pub open spec fn spec_wide_text(b: Seq<u8>) -> Option<Seq<char>> {
    spec_unit_text(units_of(b))
}

/// The view of an optional owned string as optional characters.
pub open spec fn opt_chars(o: Option<String>) -> Option<Seq<char>> {
    match o {
        Some(s) => Some(s@),
        None => None,
    }
}

/// Relies on `alloc::string::String::from_utf8`: it succeeds exactly on
/// valid UTF-8 input and returns the string those bytes encode.
#[verifier::external_body]
fn utf8_to_string(bytes: Vec<u8>) -> (r: Option<String>)
    ensures
        r is Some <==> valid_utf8(bytes@),
        r matches Some(t) ==> t@ == decode_utf8(bytes@),
{
    String::from_utf8(bytes).ok()
}

/// Relies on `widestring::U16Str::to_string`: it decodes its units as UTF-16
/// and fails exactly on input that is not valid UTF-16.
#[verifier::external_body]
fn utf16_to_string(units: &Vec<u16>) -> (r: Option<String>)
    ensures
        r is Some <==> valid_utf16(units@),
        r matches Some(t) ==> t@ == decode_utf16(units@),
{
    widestring::U16Str::from_slice(units.as_slice()).to_ustring().to_string().ok()
}

/// Decodes bytes as narrow text, or returns `None` when they are not valid.
pub fn ansi_text(bytes: Vec<u8>) -> (r: Option<String>)
    ensures
        opt_chars(r) == spec_ansi_text(bytes@),
{
    utf8_to_string(bytes)
}

/// Decodes a unit sequence as wide text, or returns `None` when the units
/// are not valid UTF-16.
pub fn utf16_units_text(units: &Vec<u16>) -> (r: Option<String>)
    ensures
        opt_chars(r) == spec_unit_text(units@),
{
    utf16_to_string(units)
}

/// Decodes bytes as wide text by pairing them into little-endian units, or
/// returns `None` when the units are not valid UTF-16.
pub fn wide_text(bytes: &Vec<u8>) -> (r: Option<String>)
    ensures
        opt_chars(r) == spec_wide_text(bytes@),
{
    let n = bytes.len() / 2;
    let mut units: Vec<u16> = Vec::new();
    let mut i: usize = 0;
    while i < n
        invariant
            0 <= i <= n,
            n == bytes@.len() / 2,
            bytes@.len() <= usize::MAX,
            units@ == units_of(bytes@).take(i as int),
        decreases n - i,
    {
        units.push(bytes[2 * i] as u16 + 0x100 * bytes[2 * i + 1] as u16);
        i = i + 1;
        proof {
            assert(units@ =~= units_of(bytes@).take(i as int));
        }
    }
    proof {
        assert(units@ =~= units_of(bytes@));
    }
    utf16_to_string(&units)
}

/// ASCII bytes are valid UTF-8 and decode to one character per byte.
pub proof fn lemma_ascii_valid_utf8(b: Seq<u8>)
    requires
        ascii_bytes(b),
    ensures
        valid_utf8(b),
        decode_utf8(b) == chars_of_ascii(b),
    decreases b.len(),
{
    if b.len() == 0 {
        assert(decode_utf8(b) =~= chars_of_ascii(b));
    } else {
        let b0 = b[0];
        assert(b0 < 0x80 ==> (b0 & 0x7f) == b0) by (bit_vector);
        let rest = b.subrange(1, b.len() as int);
        assert(vstd::utf8::pop_first_scalar(b) =~= rest);
        lemma_ascii_valid_utf8(rest);
        assert(decode_utf8(b) =~= chars_of_ascii(b));
    }
}

/// ASCII units are valid UTF-16 and decode to one character per unit.
pub proof fn lemma_ascii_valid_utf16(u: Seq<u16>)
    requires
        ascii_units(u),
    ensures
        valid_utf16(u),
        decode_utf16(u) == chars_of_ascii_units(u),
    decreases u.len(),
{
    if u.len() == 0 {
        assert(decode_utf16(u) =~= chars_of_ascii_units(u));
    } else {
        lemma_ascii_valid_utf16(u.drop_first());
        assert(decode_utf16(u) =~= chars_of_ascii_units(u));
    }
}

/// Narrow and wide decoding recover the same text for ASCII-only content:
/// bytes and units that hold the same ASCII values decode to the same
/// characters, in both encodings.
pub proof fn lemma_ascii_texts_agree(b: Seq<u8>, u: Seq<u16>)
    requires
        u.len() == b.len(),
        ascii_bytes(b),
        forall|i: int| 0 <= i < b.len() ==> u[i] == b[i],
    ensures
        valid_utf8(b),
        valid_utf16(u),
        decode_utf8(b) == decode_utf16(u),
{
    lemma_ascii_valid_utf8(b);
    lemma_ascii_valid_utf16(u);
    assert(chars_of_ascii(b) =~= chars_of_ascii_units(u));
}

/// Encoding a character sequence as UTF-16 and decoding it again yields the
/// original sequence.
pub proof fn lemma_utf16_round_trip(t: Seq<char>)
    ensures
        valid_utf16(encode_utf16(t)),
        decode_utf16(encode_utf16(t)) == t,
    decreases t.len(),
{
    if t.len() == 0 {
        assert(decode_utf16(encode_utf16(t)) =~= t);
    } else {
        let c = t[0];
        let v = c as u32;
        vstd::utf8::char_is_scalar(c);
        let enc = encode_utf16(t);
        lemma_utf16_round_trip(t.drop_first());
        if v < 0x10000 {
            vstd::utf8::char_u32_cast(c, v);
            assert(enc.drop_first() =~= encode_utf16(t.drop_first()));
            assert(decode_utf16(enc) =~= t);
        } else {
            let d = v - 0x10000;
            let hi = (d / 0x400 + 0xD800) as u16;
            let lo = (d % 0x400 + 0xDC00) as u16;
            vstd::arithmetic::div_mod::lemma_fundamental_div_mod(d, 0x400);
            assert(0 <= d % 0x400 < 0x400);
            assert(d / 0x400 <= 0x3FF) by {
                if d / 0x400 > 0x3FF {
                    assert(d >= 0x400 * (d / 0x400));
                }
            }
            assert(0 <= d / 0x400);
            assert(is_high_surrogate(hi));
            assert(is_low_surrogate(lo));
            assert(surrogate_scalar(hi, lo) == v);
            vstd::utf8::char_u32_cast(c, v);
            assert(enc.skip(2) =~= encode_utf16(t.drop_first()));
            assert(decode_utf16(enc) =~= t);
        }
    }
}

} // verus!
