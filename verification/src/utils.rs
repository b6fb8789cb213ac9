//! Decoders for what the speaker reports about the current track: titles
//! that arrive as hexadecimal text, and times that arrive as milliseconds.

use crate::decimal::{decimal, decimal_text, lemma_decimal_roundtrip, parse_u64, parsed_u64};
use crate::text::{chars_of, decode_lossy, lossy_text, pad_left, padded};
use vstd::prelude::*;
use vstd::utf8::{encode_utf8, encode_utf8_decode_utf8, encode_utf8_valid_utf8};

verus! {

/// The value of a hexadecimal digit, in either case.
pub open spec fn hex_value(c: char) -> Option<nat> {
    if '0' <= c <= '9' {
        Some((c as nat - '0' as nat) as nat)
    } else if 'a' <= c <= 'f' {
        Some((c as nat - 'a' as nat + 10) as nat)
    } else if 'A' <= c <= 'F' {
        Some((c as nat - 'A' as nat + 10) as nat)
    } else {
        None
    }
}

/// The byte that two characters spell: two hexadecimal digits give the byte
/// with those digits, and a `+` followed by one digit gives that digit's
/// value. Any other pair spells no byte.
pub open spec fn pair_value(high: char, low: char) -> Option<u8> {
    match hex_value(low) {
        Some(l) => match hex_value(high) {
            Some(h) => Some((16 * h + l) as u8),
            None => if high == '+' {
                Some(l as u8)
            } else {
                None
            },
        },
        None => None,
    }
}

/// The bytes that a text spells in hexadecimal. The text is taken two
/// characters at a time; a pair that spells no byte is passed over, and so is
/// a last character left without a partner.
pub open spec fn hex_bytes(s: Seq<char>) -> Seq<u8>
    decreases s.len(),
{
    if s.len() < 2 {
        Seq::empty()
    } else {
        match pair_value(s[0], s[1]) {
            Some(byte) => seq![byte] + hex_bytes(s.skip(2)),
            None => hex_bytes(s.skip(2)),
        }
    }
}

/// The text that a hexadecimal field stands for: its bytes, decoded as UTF-8
/// as far as they are UTF-8.
pub open spec fn hex_text(s: Seq<char>) -> Seq<char> {
    lossy_text(hex_bytes(s))
}

/// The value of a hexadecimal digit.
fn hex_digit(c: char) -> (value: Option<u8>)
    ensures
        match hex_value(c) {
            Some(v) => value == Some(v as u8) && v < 16,
            None => value is None,
        },
{
    if '0' <= c && c <= '9' {
        Some((c as u32 - '0' as u32) as u8)
    } else if 'a' <= c && c <= 'f' {
        Some((c as u32 - 'a' as u32 + 10) as u8)
    } else if 'A' <= c && c <= 'F' {
        Some((c as u32 - 'A' as u32 + 10) as u8)
    } else {
        None
    }
}

/// The byte that two characters spell.
fn pair_byte(high: char, low: char) -> (byte: Option<u8>)
    ensures
        byte == pair_value(high, low),
{
    match hex_digit(low) {
        Some(l) => match hex_digit(high) {
            Some(h) => Some(16 * h + l),
            None => if high == '+' {
                Some(l)
            } else {
                None
            },
        },
        None => None,
    }
}

/// Decodes a title or artist field: hexadecimal text for the bytes of a
/// UTF-8 string.
///
/// Nothing is rejected. A pair that is not hexadecimal is left out, and the
/// bytes around it close up; where that, or the field itself, leaves bytes
/// that are not UTF-8, they come out as U+FFFD. The empty field gives the
/// empty text.
pub fn decode_hex(hex: &str) -> (text: String)
    ensures
        text@ == hex_text(hex@),
{
    let chars = chars_of(hex);
    let mut bytes: Vec<u8> = Vec::new();
    let mut i: usize = 0;
    assert(hex@.skip(0) == hex@);
    assert(bytes@ + hex_bytes(hex@) == hex_bytes(hex@));
    while chars.len() - i >= 2
        invariant
            i <= chars.len(),
            chars@ == hex@,
            hex_bytes(hex@) == bytes@ + hex_bytes(hex@.skip(i as int)),
        decreases chars.len() - i,
    {
        let ghost rest = hex@.skip(i as int);
        assert(rest[0] == chars[i as int] && rest[1] == chars[i + 1]);
        assert(rest.skip(2) == hex@.skip(i + 2));
        match pair_byte(chars[i], chars[i + 1]) {
            Some(byte) => {
                assert((bytes@.push(byte)) + hex_bytes(rest.skip(2)) == bytes@ + (seq![byte]
                    + hex_bytes(rest.skip(2))));
                bytes.push(byte);
            },
            None => {},
        }
        i += 2;
    }
    assert(hex_bytes(hex@.skip(i as int)) == Seq::<u8>::empty());
    assert(bytes@ + Seq::<u8>::empty() == bytes@);
    decode_lossy(&bytes)
}

/// Whether `s` spells `bytes` in hexadecimal, a pair of digits for each byte.
pub open spec fn spells(s: Seq<char>, bytes: Seq<u8>) -> bool {
    &&& s.len() == 2 * bytes.len()
    &&& forall|k: int|
        0 <= k < bytes.len() ==> pair_value(s[2 * k], s[2 * k + 1]) == Some(#[trigger] bytes[k])
}

/// A text that spells bytes in hexadecimal gives those bytes back.
pub proof fn lemma_hex_bytes_of_spelling(s: Seq<char>, bytes: Seq<u8>)
    requires
        spells(s, bytes),
    ensures
        hex_bytes(s) == bytes,
    decreases bytes.len(),
{
    if bytes.len() > 0 {
        let rest = bytes.skip(1);
        assert(pair_value(s[0], s[1]) == Some(bytes[0]));
        assert forall|k: int| 0 <= k < rest.len() implies pair_value(
            s.skip(2)[2 * k],
            s.skip(2)[2 * k + 1],
        ) == Some(#[trigger] rest[k]) by {
            assert(pair_value(s[2 * (k + 1)], s[2 * (k + 1) + 1]) == Some(bytes[k + 1]));
        }
        lemma_hex_bytes_of_spelling(s.skip(2), rest);
        assert(seq![bytes[0]] + rest == bytes);
    }
}

/// Decoding the hexadecimal spelling of a text's UTF-8 bytes gives the text
/// back, whatever characters it holds.
pub proof fn lemma_decode_hex_restores(s: Seq<char>, text: Seq<char>)
    requires
        spells(s, encode_utf8(text)),
    ensures
        hex_text(s) == text,
{
    lemma_hex_bytes_of_spelling(s, encode_utf8(text));
    encode_utf8_valid_utf8(text);
    encode_utf8_decode_utf8(text);
}

/// A time of `ms` milliseconds as minutes and seconds: both with two digits
/// at least, the minutes never wrapped into hours, the rest of a second
/// dropped.
pub open spec fn clock_text(ms: nat) -> Seq<char> {
    let seconds = ms / 1000;
    padded(decimal_text(seconds / 60), 2, '0') + ":"@ + padded(decimal_text(seconds % 60), 2, '0')
}

/// What a time field shows: the time it counts in milliseconds, and 0 where
/// it holds no count.
pub open spec fn time_text(field: Seq<char>) -> Seq<char> {
    clock_text(
        match parsed_u64(field) {
            Some(ms) => ms as nat,
            None => 0,
        },
    )
}

/// Formats a count of milliseconds as `mm:ss`.
pub fn format_clock(ms: u64) -> (text: String)
    ensures
        text@ == clock_text(ms as nat),
{
    let seconds = ms / 1000;
    let mut text = pad_left(decimal(seconds / 60).as_str(), 2, '0');
    text.append(":");
    text.append(pad_left(decimal(seconds % 60).as_str(), 2, '0').as_str());
    text
}

/// Formats a position or length field, a decimal count of milliseconds, as
/// `mm:ss`. A field that holds no such count is shown as `00:00`.
pub fn format_time(ms_str: &str) -> (text: String)
    ensures
        text@ == time_text(ms_str@),
{
    let ms = match parse_u64(ms_str) {
        Some(ms) => ms,
        None => 0,
    };
    format_clock(ms)
}

/// A count that is written out in decimal and read back as a time field
/// shows the time of that count.
pub proof fn lemma_time_of_written_count(ms: u64)
    ensures
        time_text(decimal_text(ms as nat)) == clock_text(ms as nat),
{
    lemma_decimal_roundtrip(ms as nat);
}

} // verus!
