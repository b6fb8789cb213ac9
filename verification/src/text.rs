//! Text primitives shared by the resolvers and the commands.
//!
//! Every contract in this crate speaks of text as a `Seq<char>`, the view of
//! `str` and `String`. This module supplies the few operations on text that
//! the rest of the crate is built from: reading the characters of a string,
//! comparing two strings, case mapping, lossy UTF-8 decoding and padding.

use std::borrow::Cow;
use vstd::prelude::*;
use vstd::utf8::*;

verus! {

/// `String::push` appends one character to the end of the string.
pub assume_specification[ String::push ](s: &mut String, c: char)
    ensures
        final(s)@ == old(s)@.push(c),
;

/// The lowercase form of an ASCII letter; every other character is itself.
pub open spec fn ascii_lower(c: char) -> char {
    if 'A' <= c <= 'Z' {
        ((c as u8) + 32) as char
    } else {
        c
    }
}

/// The uppercase form of an ASCII letter; every other character is itself.
pub open spec fn ascii_upper(c: char) -> char {
    if 'a' <= c <= 'z' {
        ((c as u8) - 32) as char
    } else {
        c
    }
}

/// The Unicode lowercase mapping of a text that is not pure ASCII, as
/// `str::to_lowercase` computes it.
pub uninterp spec fn unicode_lowercase(s: Seq<char>) -> Seq<char>;

/// The Unicode uppercase mapping of a text that is not pure ASCII, as
/// `str::to_uppercase` computes it.
pub uninterp spec fn unicode_uppercase(s: Seq<char>) -> Seq<char>;

/// The lowercase form of a text. On ASCII text the letters `A` to `Z` are
/// replaced one for one; any other text goes through the Unicode mapping.
pub open spec fn lowercase(s: Seq<char>) -> Seq<char> {
    if is_ascii_chars(s) {
        s.map_values(|c: char| ascii_lower(c))
    } else {
        unicode_lowercase(s)
    }
}

/// The uppercase form of a text. On ASCII text the letters `a` to `z` are
/// replaced one for one; any other text goes through the Unicode mapping.
pub open spec fn uppercase(s: Seq<char>) -> Seq<char> {
    if is_ascii_chars(s) {
        s.map_values(|c: char| ascii_upper(c))
    } else {
        unicode_uppercase(s)
    }
}

/// `str::to_lowercase` returns the lowercase equivalent of the string. The
/// Unicode mapping of an ASCII character is its ASCII lowercase form, so on
/// ASCII input the result is spelled out; on any other input it is only named.
pub assume_specification[ str::to_lowercase ](s: &str) -> (r: String)
    ensures
        is_ascii_chars(s@) ==> r@ == s@.map_values(|c: char| ascii_lower(c)),
        !is_ascii_chars(s@) ==> r@ == unicode_lowercase(s@),
;

/// `str::to_uppercase` returns the uppercase equivalent of the string. The
/// Unicode mapping of an ASCII character is its ASCII uppercase form, so on
/// ASCII input the result is spelled out; on any other input it is only named.
pub assume_specification[ str::to_uppercase ](s: &str) -> (r: String)
    ensures
        is_ascii_chars(s@) ==> r@ == s@.map_values(|c: char| ascii_upper(c)),
        !is_ascii_chars(s@) ==> r@ == unicode_uppercase(s@),
;

/// What `String::from_utf8_lossy` makes of bytes that are not valid UTF-8:
/// the text in which each invalid sequence is replaced by U+FFFD.
pub uninterp spec fn lossy_decoding(bytes: Seq<u8>) -> Seq<char>;

/// The text that a byte sequence stands for when nothing may be rejected:
/// valid UTF-8 decodes to its characters, anything else is decoded with
/// replacement characters.
pub open spec fn lossy_text(bytes: Seq<u8>) -> Seq<char> {
    if valid_utf8(bytes) {
        decode_utf8(bytes)
    } else {
        lossy_decoding(bytes)
    }
}

/// `String::from_utf8_lossy` converts bytes to text. Valid UTF-8 comes back
/// as the string with exactly those bytes; otherwise the invalid sequences
/// are replaced, and the result is only named.
pub assume_specification<'a>[ String::from_utf8_lossy ](v: &'a [u8]) -> (r: Cow<'a, str>)
    ensures
        valid_utf8(v@) ==> r@ == decode_utf8(v@),
        !valid_utf8(v@) ==> r@ == lossy_decoding(v@),
;

/// Decodes bytes as UTF-8, substituting U+FFFD for what is not.
pub fn decode_lossy(bytes: &Vec<u8>) -> (text: String)
    ensures
        text@ == lossy_text(bytes@),
{
    match String::from_utf8_lossy(bytes.as_slice()) {
        Cow::Borrowed(borrowed) => borrowed.to_owned(),
        Cow::Owned(owned) => owned,
    }
}

/// The characters of `s`, in order.
pub fn chars_of(s: &str) -> (chars: Vec<char>)
    ensures
        chars@ == s@,
{
    let mut chars: Vec<char> = Vec::new();
    for c in it: s.chars()
        invariant
            chars@ == it.seq().take(it.index()),
            it.seq() == s@,
    {
        chars.push(c);
    }
    chars
}

/// Whether two strings hold the same text.
pub fn same_text(a: &str, b: &str) -> (same: bool)
    ensures
        same == (a@ == b@),
{
    let x = a.as_bytes();
    let y = b.as_bytes();
    if x.len() != y.len() {
        return false;
    }
    let mut i: usize = 0;
    while i < x.len()
        invariant
            i <= x.len(),
            x.len() == y.len(),
            x@ == encode_utf8(a@),
            y@ == encode_utf8(b@),
            x@.take(i as int) == y@.take(i as int),
        decreases x.len() - i,
    {
        if x[i] != y[i] {
            return false;
        }
        i += 1;
        assert(x@.take(i as int) == x@.take(i as int - 1).push(x@[i as int - 1]));
        assert(y@.take(i as int) == y@.take(i as int - 1).push(y@[i as int - 1]));
    }
    proof {
        // Equal encodings decode to equal texts.
        assert(x@ == x@.take(i as int));
        assert(y@ == y@.take(i as int));
        encode_utf8_decode_utf8(a@);
        encode_utf8_decode_utf8(b@);
    }
    true
}

/// `s` filled on the left with `fill` up to `width` characters; a text that
/// is already that long is left as it is.
pub open spec fn padded(s: Seq<char>, width: nat, fill: char) -> Seq<char> {
    if s.len() >= width {
        s
    } else {
        Seq::new((width - s.len()) as nat, |i: int| fill) + s
    }
}

/// Right-aligns `s` in a field of `width` characters.
pub fn pad_left(s: &str, width: usize, fill: char) -> (out: String)
    ensures
        out@ == padded(s@, width as nat, fill),
{
    let len = s.unicode_len();
    let mut out = String::new();
    if len < width {
        let missing = width - len;
        let mut i: usize = 0;
        while i < missing
            invariant
                i <= missing,
                out@ == Seq::new(i as nat, |k: int| fill),
            decreases missing - i,
        {
            out.push(fill);
            i += 1;
        }
    }
    out.append(s);
    out
}

/// The texts of a list of lines.
pub open spec fn texts(lines: Seq<String>) -> Seq<Seq<char>> {
    lines.map_values(|line: String| line@)
}

/// Appends a line to a list of lines.
pub fn push_line(lines: &mut Vec<String>, line: String)
    ensures
        texts(final(lines)@) == texts(old(lines)@).push(line@),
{
    lines.push(line);
}

/// `head` followed by `tail`.
pub fn joined(head: &str, tail: &str) -> (both: String)
    ensures
        both@ == head@ + tail@,
{
    let mut both = head.to_owned();
    both.append(tail);
    both
}

} // verus!
