//! Decimal numbers as text: reading them and writing them.
//!
//! Reading follows the usual rules for integers written in decimal: an
//! optional sign, then at least one ASCII digit and nothing else. No spaces,
//! no separators, no other digits than `0` to `9`. Leading zeros are allowed.
//! A value that does not fit the target type is not a number of that type;
//! where the size of a number must not matter, [`parse_held`] reads an
//! integer of any length and caps its value.

use crate::text::chars_of;
use vstd::prelude::*;

verus! {

/// Whether `c` is one of `0` to `9`.
pub open spec fn is_digit(c: char) -> bool {
    '0' <= c <= '9'
}

/// The value of a decimal digit.
pub open spec fn digit_value(c: char) -> nat {
    (c as nat - '0' as nat) as nat
}

/// Whether a text consists of decimal digits alone.
pub open spec fn all_digits(s: Seq<char>) -> bool {
    forall|i: int| 0 <= i < s.len() ==> is_digit(#[trigger] s[i])
}

/// The value of a run of decimal digits, most significant digit first.
pub open spec fn digits_value(s: Seq<char>) -> nat
    decreases s.len(),
{
    if s.len() == 0 {
        0
    } else {
        digits_value(s.drop_last()) * 10 + digit_value(s.last())
    }
}

/// The number that a bare run of digits denotes; the empty text and a text
/// with anything but digits in it denote none.
pub open spec fn plain_number(s: Seq<char>) -> Option<nat> {
    if s.len() > 0 && all_digits(s) {
        Some(digits_value(s))
    } else {
        None
    }
}

/// The number that a text denotes when read as an unsigned decimal: digits,
/// with at most a `+` in front.
pub open spec fn unsigned_number(s: Seq<char>) -> Option<nat> {
    if s.len() > 0 && s[0] == '+' {
        plain_number(s.drop_first())
    } else {
        plain_number(s)
    }
}

/// The number that a text denotes when read as a signed decimal: digits,
/// with at most a `+` or a `-` in front.
pub open spec fn signed_number(s: Seq<char>) -> Option<int> {
    if s.len() > 0 && s[0] == '-' {
        match plain_number(s.drop_first()) {
            Some(n) => Some(-(n as int)),
            None => None,
        }
    } else {
        match unsigned_number(s) {
            Some(n) => Some(n as int),
            None => None,
        }
    }
}

/// `s` read as a `u64`.
pub open spec fn parsed_u64(s: Seq<char>) -> Option<u64> {
    match unsigned_number(s) {
        Some(n) => if n <= u64::MAX {
            Some(n as u64)
        } else {
            None
        },
        None => None,
    }
}

/// `s` read as an `i32`.
pub open spec fn parsed_i32(s: Seq<char>) -> Option<i32> {
    match signed_number(s) {
        Some(n) => if i32::MIN <= n <= i32::MAX {
            Some(n as i32)
        } else {
            None
        },
        None => None,
    }
}

/// `n` held between `low` and `high`: itself if it lies between them, and
/// else the nearer of the two.
pub open spec fn held(n: int, low: int, high: int) -> int {
    if n < low {
        low
    } else if n > high {
        high
    } else {
        n
    }
}

/// `s` read as a signed integer of any size, held to the range of `i64`.
/// Whatever is written as an integer is one; only its value is capped.
pub open spec fn parsed_held(s: Seq<char>) -> Option<i64> {
    match signed_number(s) {
        Some(n) => Some(held(n, i64::MIN as int, i64::MAX as int) as i64),
        None => None,
    }
}

/// The digits of `chars` from `start` on, read as a number and capped at
/// `cap`.
fn capped_number(chars: &Vec<char>, start: usize, cap: u128) -> (r: Option<u128>)
    requires
        start <= chars.len(),
        cap <= 0x1_0000_0000_0000_0000,
    ensures
        r == match plain_number(chars@.skip(start as int)) {
            Some(n) => Some(
                if n <= cap {
                    n as u128
                } else {
                    cap
                },
            ),
            None => None,
        },
{
    let ghost body = chars@.skip(start as int);
    if start == chars.len() {
        return None;
    }
    let mut value: u128 = 0;
    let mut i: usize = start;
    while i < chars.len()
        invariant
            start <= i <= chars.len(),
            cap <= 0x1_0000_0000_0000_0000,
            body == chars@.skip(start as int),
            all_digits(body.take(i - start)),
            value == (if digits_value(body.take(i - start)) <= cap {
                digits_value(body.take(i - start)) as u128
            } else {
                cap
            }),
        decreases chars.len() - i,
    {
        let c = chars[i];
        let ghost k = i - start;
        assert(body[k] == c);
        assert(body.take(k + 1).drop_last() == body.take(k));
        if c < '0' || c > '9' {
            return None;
        }
        let digit: u128 = (c as u32 - 48) as u128;
        let next: u128 = value * 10 + digit;
        value = if next > cap {
            cap
        } else {
            next
        };
        i += 1;
    }
    assert(body.take(i - start) == body);
    Some(value)
}

/// Where the digits start: behind a `+`, if there is one in front.
fn digits_start(chars: &Vec<char>) -> (start: usize)
    ensures
        start <= chars.len(),
        chars@.skip(start as int) == (if chars@.len() > 0 && chars@[0] == '+' {
            chars@.drop_first()
        } else {
            chars@
        }),
{
    assert(chars@.skip(0) == chars@);
    assert(chars@.skip(1) == chars@.drop_first());
    if chars.len() > 0 && chars[0] == '+' {
        1
    } else {
        0
    }
}

/// Reads `s` as a `u64`.
pub fn parse_u64(s: &str) -> (r: Option<u64>)
    ensures
        r == parsed_u64(s@),
{
    let chars = chars_of(s);
    let start = digits_start(&chars);
    match capped_number(&chars, start, 0x1_0000_0000_0000_0000) {
        Some(n) => if n <= 0xffff_ffff_ffff_ffff {
            Some(n as u64)
        } else {
            None
        },
        None => None,
    }
}

/// Reads `s` as an `i32`.
pub fn parse_i32(s: &str) -> (r: Option<i32>)
    ensures
        r == parsed_i32(s@),
{
    let chars = chars_of(s);
    if chars.len() > 0 && chars[0] == '-' {
        assert(chars@.skip(1) == chars@.drop_first());
        match capped_number(&chars, 1, 0x8000_0001) {
            Some(n) => if n <= 0x8000_0000 {
                Some((0 - n as i64) as i32)
            } else {
                None
            },
            None => None,
        }
    } else {
        let start = digits_start(&chars);
        match capped_number(&chars, start, 0x8000_0000) {
            Some(n) => if n <= 0x7fff_ffff {
                Some(n as i32)
            } else {
                None
            },
            None => None,
        }
    }
}

/// Reads `s` as a signed integer of any size and holds it to the range of
/// `i64`.
pub fn parse_held(s: &str) -> (r: Option<i64>)
    ensures
        r == parsed_held(s@),
{
    let chars = chars_of(s);
    if chars.len() > 0 && chars[0] == '-' {
        assert(chars@.skip(1) == chars@.drop_first());
        match capped_number(&chars, 1, 0x8000_0000_0000_0000) {
            Some(n) => Some((0 - n as i128) as i64),
            None => None,
        }
    } else {
        let start = digits_start(&chars);
        match capped_number(&chars, start, 0x7fff_ffff_ffff_ffff) {
            Some(n) => Some(n as i64),
            None => None,
        }
    }
}

/// The character for a digit value below ten.
pub open spec fn digit_char(d: nat) -> char {
    (48 + d) as u8 as char
}

/// A natural number written in decimal, without sign, padding or leading
/// zeros.
pub open spec fn decimal_text(n: nat) -> Seq<char>
    decreases n,
{
    if n < 10 {
        seq![digit_char(n)]
    } else {
        decimal_text(n / 10).push(digit_char(n % 10))
    }
}

/// Appends `n`, written in decimal, to `out`.
pub fn push_decimal(out: &mut String, n: u64)
    ensures
        final(out)@ == old(out)@ + decimal_text(n as nat),
    decreases n,
{
    if n >= 10 {
        push_decimal(out, n / 10);
    }
    let digit: u8 = (n % 10) as u8;
    out.push((48u8 + digit) as char);
}

/// `n` written in decimal.
pub fn decimal(n: u64) -> (text: String)
    ensures
        text@ == decimal_text(n as nat),
{
    let mut text = String::new();
    push_decimal(&mut text, n);
    text
}

/// Reading what was written gives the number back: the decimal text of `n`
/// is a bare run of digits, and its value is `n`.
pub proof fn lemma_decimal_roundtrip(n: nat)
    ensures
        plain_number(decimal_text(n)) == Some(n),
        unsigned_number(decimal_text(n)) == Some(n),
        signed_number(decimal_text(n)) == Some(n as int),
    decreases n,
{
    let text = decimal_text(n);
    if n < 10 {
        assert(text.drop_last() == Seq::<char>::empty());
        assert(digits_value(text) == digits_value(text.drop_last()) * 10 + digit_value(
            text.last(),
        ));
    } else {
        lemma_decimal_roundtrip(n / 10);
        assert(text.drop_last() == decimal_text(n / 10));
        assert(digits_value(text) == digits_value(text.drop_last()) * 10 + digit_value(
            text.last(),
        ));
    }
    assert(is_digit(text[0]));
}

} // verus!
