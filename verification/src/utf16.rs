//! UTF-16, the text encoding of the Windows interfaces.

use vstd::prelude::*;
use vstd::utf8::is_scalar;
use crate::text::{chars_of, string_of, trimmed_end};

verus! {

/// Stands for what cannot be decoded.
pub const REPLACEMENT: char = '\u{FFFD}';

/// The UTF-16 code units of one character.
pub open spec fn units(c: char) -> Seq<u16> {
    let n = c as u32;
    if n < 0x10000 {
        seq![n as u16]
    } else {
        seq![(0xD800 + (n - 0x10000) / 0x400) as u16, (0xDC00 + (n - 0x10000) % 0x400) as u16]
    }
}

/// The UTF-16 code units of a text.
pub open spec fn utf16(s: Seq<char>) -> Seq<u16>
    decreases s.len(),
{
    if s.len() == 0 {
        Seq::empty()
    } else {
        utf16(s.drop_last()) + units(s.last())
    }
}

/// The UTF-16 code units of a text, with a zero at the end.
pub open spec fn utf16z(s: Seq<char>) -> Seq<u16> {
    utf16(s).push(0)
}

/// Whether `u` is the first half of a surrogate pair.
pub open spec fn is_high(u: u16) -> bool {
    0xD800 <= u < 0xDC00
}

/// Whether `u` is the second half of a surrogate pair.
pub open spec fn is_low(u: u16) -> bool {
    0xDC00 <= u < 0xE000
}

/// The character that a surrogate pair stands for.
pub open spec fn joined(high: u16, low: u16) -> char {
    (0x10000 + (high - 0xD800) * 0x400 + (low - 0xDC00)) as char
}

/// The text that code units stand for: each surrogate that is not part of a
/// pair becomes one replacement character.
pub open spec fn decoded(u: Seq<u16>) -> Seq<char>
    decreases u.len(),
{
    if u.len() == 0 {
        Seq::empty()
    } else if is_high(u[0]) && u.len() >= 2 && is_low(u[1]) {
        seq![joined(u[0], u[1])] + decoded(u.skip(2))
    } else if is_high(u[0]) || is_low(u[0]) {
        seq![REPLACEMENT] + decoded(u.skip(1))
    } else {
        seq![u[0] as char] + decoded(u.skip(1))
    }
}

/// The UTF-16 code units of a string.
pub fn encode(s: &str) -> (r: Vec<u16>)
    ensures
        r@ == utf16(s@),
{
    let cs = chars_of(s);
    let mut out: Vec<u16> = Vec::new();
    for i in 0..cs.len()
        invariant
            cs@ == s@,
            out@ == utf16(s@.take(i as int)),
    {
        let n: u32 = cs[i] as u32;
        if n < 0x10000 {
            out.push(n as u16);
        } else {
            out.push((0xD800 + (n - 0x10000) / 0x400) as u16);
            out.push((0xDC00 + (n - 0x10000) % 0x400) as u16);
        }
        assert(s@.take(i + 1).drop_last() =~= s@.take(i as int));
        assert(out@ =~= utf16(s@.take(i as int)) + units(s@[i as int]));
    }
    assert(s@.take(s@.len() as int) =~= s@);
    out
}

/// The UTF-16 code units of a string, with a zero at the end.
pub fn encode_z(s: &str) -> (r: Vec<u16>)
    ensures
        r@ == utf16z(s@),
{
    let mut out = encode(s);
    out.push(0);
    out
}

/// The text that code units stand for, with a replacement character for each
/// surrogate that is not part of a pair.
pub fn decode(u: &[u16]) -> (r: String)
    ensures
        r@ == decoded(u@),
{
    let mut out: Vec<char> = Vec::new();
    let mut i: usize = 0;
    assert(u@.skip(0) =~= u@);
    while i < u.len()
        invariant
            i <= u@.len(),
            out@ + decoded(u@.skip(i as int)) == decoded(u@),
        decreases u@.len() - i,
    {
        let ghost rest = u@.skip(i as int);
        let ghost before = out@;
        let a: u16 = u[i];
        if 0xD800 <= a && a < 0xDC00 && i + 1 < u.len() && 0xDC00 <= u[i + 1] && u[i + 1] < 0xE000 {
            let b: u16 = u[i + 1];
            let n: u32 = 0x10000 + (a as u32 - 0xD800) * 0x400 + (b as u32 - 0xDC00);
            assert(is_scalar(n));
            if let Some(c) = char::from_u32(n) {
                assert(c == joined(a, b));
                out.push(c);
            }
            i = i + 2;
            assert(rest.skip(2) =~= u@.skip(i as int));
            assert(out@ =~= before + seq![joined(a, b)]);
        } else if 0xD800 <= a && a < 0xE000 {
            out.push(REPLACEMENT);
            i = i + 1;
            assert(rest.skip(1) =~= u@.skip(i as int));
            assert(out@ =~= before + seq![REPLACEMENT]);
        } else {
            assert(is_scalar(a as u32));
            if let Some(c) = char::from_u32(a as u32) {
                assert(c == a as char);
                out.push(c);
            }
            i = i + 1;
            assert(rest.skip(1) =~= u@.skip(i as int));
            assert(out@ =~= before + seq![a as char]);
        }
        assert(out@ + decoded(u@.skip(i as int)) =~= before + decoded(rest));
    }
    assert(out@ =~= decoded(u@));
    string_of(&out)
}

/// Decoding takes the code units of a first character off the front.
proof fn decoded_units(c: char, rest: Seq<u16>)
    ensures
        decoded(units(c) + rest) == seq![c] + decoded(rest),
{
    let n = c as u32;
    let all = units(c) + rest;
    if n < 0x10000 {
        assert(all.skip(1) =~= rest);
        assert(all[0] as char == c);
    } else {
        assert(all.skip(2) =~= rest);
        assert(joined(all[0], all[1]) == c);
    }
}

/// The code units of a text can be taken off its front.
proof fn utf16_front(s: Seq<char>)
    requires
        s.len() > 0,
    ensures
        utf16(s) == units(s[0]) + utf16(s.drop_first()),
    decreases s.len(),
{
    if s.len() == 1 {
        assert(s.drop_last() =~= Seq::empty());
        assert(s.drop_first() =~= Seq::empty());
        assert(utf16(s) =~= units(s[0]) + utf16(s.drop_first()));
    } else {
        utf16_front(s.drop_last());
        assert(s.drop_last().drop_first() =~= s.drop_first().drop_last());
        assert(utf16(s) =~= units(s[0]) + utf16(s.drop_first()));
    }
}

/// Decoding takes an encoded text off the front.
pub proof fn decoding_goes_on_behind_a_text(s: Seq<char>, rest: Seq<u16>)
    ensures
        decoded(utf16(s) + rest) == s + decoded(rest),
    decreases s.len(),
{
    if s.len() > 0 {
        let tail = s.drop_first();
        utf16_front(s);
        decoding_goes_on_behind_a_text(tail, rest);
        assert(utf16(s) + rest =~= units(s[0]) + (utf16(tail) + rest));
        decoded_units(s[0], utf16(tail) + rest);
        assert(s + decoded(rest) =~= seq![s[0]] + (tail + decoded(rest)));
    } else {
        assert(utf16(s) + rest =~= rest);
        assert(s + decoded(rest) =~= decoded(rest));
    }
}

/// Decoding gives back every text that was encoded.
pub proof fn decoding_undoes_encoding(s: Seq<char>)
    ensures
        decoded(utf16(s)) == s,
{
    decoding_goes_on_behind_a_text(s, Seq::empty());
    assert(utf16(s) + Seq::<u16>::empty() =~= utf16(s));
    assert(s + decoded(Seq::empty()) =~= s);
}

/// A text that was encoded and put into a buffer of zeros is got back by decoding the
/// buffer and dropping the zero characters at its end, unless the text itself
/// ends in a zero character.
pub proof fn buffer_gives_text_back(s: Seq<char>, zeros: nat)
    requires
        s.len() > 0 ==> s.last() != '\0',
    ensures
        trimmed_end(decoded(utf16(s) + Seq::new(zeros, |i: int| 0u16)), '\0') == s,
{
    decoding_goes_on_behind_a_text(s, Seq::new(zeros, |i: int| 0u16));
    zeros_decode_to_zeros(zeros);
    zeros_are_trimmed(s, zeros);
}

/// Zeros stand for zero characters.
proof fn zeros_decode_to_zeros(zeros: nat)
    ensures
        decoded(Seq::new(zeros, |i: int| 0u16)) == Seq::new(zeros, |i: int| '\0'),
    decreases zeros,
{
    let u = Seq::new(zeros, |i: int| 0u16);
    if zeros > 0 {
        zeros_decode_to_zeros((zeros - 1) as nat);
        assert(u.skip(1) =~= Seq::new((zeros - 1) as nat, |i: int| 0u16));
        assert(decoded(u) =~= Seq::new(zeros, |i: int| '\0'));
    } else {
        assert(decoded(u) =~= Seq::new(zeros, |i: int| '\0'));
    }
}

/// Zero characters at the end are dropped.
proof fn zeros_are_trimmed(s: Seq<char>, zeros: nat)
    requires
        s.len() > 0 ==> s.last() != '\0',
    ensures
        trimmed_end(s + Seq::new(zeros, |i: int| '\0'), '\0') == s,
    decreases zeros,
{
    let all = s + Seq::new(zeros, |i: int| '\0');
    if zeros > 0 {
        zeros_are_trimmed(s, (zeros - 1) as nat);
        assert(all.drop_last() =~= s + Seq::new((zeros - 1) as nat, |i: int| '\0'));
    } else {
        assert(all =~= s);
    }
}

} // verus!
