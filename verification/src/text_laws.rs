//! What the helpers for texts, UTF-16 and sizes come to, told without them.

use vstd::arithmetic::power2::pow2;
use vstd::prelude::*;
use crate::size::{as_double, gib_tenths, gib_text, rounded, spacing};
use crate::text::{
    decimal, first, is_letter, not_after, occurs, occurs_at, shortened, trimmed_end,
};
use crate::utf16::{
    decoded, decoding_goes_on_behind_a_text, decoding_undoes_encoding, units, utf16, utf16z,
};

verus! {

/// The number that decimal digits stand for.
pub open spec fn read_decimal(s: Seq<char>) -> int
    decreases s.len(),
{
    if s.len() == 0 {
        0
    } else {
        10 * read_decimal(s.drop_last()) + (s.last() as int - 48)
    }
}

/// The decimal notation of a number consists of digits, stands for that number, and begins with
/// a zero only where the number is zero.
pub proof fn decimal_reads_back(n: nat)
    ensures
        decimal(n).len() > 0,
        forall|i: int| 0 <= i < decimal(n).len() ==> 48 <= #[trigger] decimal(n)[i] as int <= 57,
        read_decimal(decimal(n)) == n,
        decimal(n)[0] == '0' ==> n == 0 && decimal(n).len() == 1,
    decreases n,
{
    if n >= 10 {
        decimal_reads_back(n / 10);
        assert(decimal(n).drop_last() =~= decimal(n / 10));
    } else {
        assert(decimal(n).drop_last() =~= Seq::empty());
        reveal_with_fuel(read_decimal, 2);
    }
}

/// The first character of a text stands at its first position.
pub proof fn first_stands_first(c: char, rest: Seq<char>)
    ensures
        first(seq![c] + rest) == Some(c),
        first(Seq::empty()) is None,
{
}

/// A shortened text is the beginning of the text, as long as it may be.
pub proof fn shortened_is_the_beginning(s: Seq<char>, n: nat)
    ensures
        shortened(s, n).is_prefix_of(s),
        shortened(s, n).len() == if s.len() <= n {
            s.len()
        } else {
            n
        },
{
}

/// What is trimmed off the end of a text is exactly the run of the one character.
pub proof fn trimming_takes_off_the_run(s: Seq<char>, c: char, n: nat)
    requires
        s.len() > 0 ==> s.last() != c,
    ensures
        trimmed_end(s + Seq::new(n, |i: int| c), c) == s,
    decreases n,
{
    let all = s + Seq::new(n, |i: int| c);
    if n > 0 {
        trimming_takes_off_the_run(s, c, (n - 1) as nat);
        assert(all.drop_last() =~= s + Seq::new((n - 1) as nat, |i: int| c));
    } else {
        assert(all =~= s);
    }
}

/// The letters are the 26 large ones from number 65 and the 26 small ones from number 97.
pub proof fn letters_are_fifty_two(c: char)
    ensures
        is_letter(c) <==> 65 <= c as int && (c as int) < 65 + 26 || 97 <= c as int && (c as int)
            < 97 + 26,
{
}

/// A text occurs in another exactly if the other is made of something, the text, and something
/// more.
pub proof fn occurring_is_standing_between(hay: Seq<char>, needle: Seq<char>)
    ensures
        occurs(hay, needle) <==> exists|a: Seq<char>, b: Seq<char>| hay == #[trigger] (a + needle
            + b),
{
    if occurs(hay, needle) {
        let at = choose|at: int| occurs_at(hay, needle, at);
        let a = hay.take(at);
        let b = hay.skip(at + needle.len());
        assert(hay =~= a + needle + b) by {
            assert forall|i: int| 0 <= i < needle.len() implies hay[at + i] == needle[i] by {
                assert(hay.subrange(at, at + needle.len())[i] == hay[at + i]);
            }
        }
    }
    if exists|a: Seq<char>, b: Seq<char>| hay == #[trigger] (a + needle + b) {
        let (a, b) = choose|a: Seq<char>, b: Seq<char>| hay == #[trigger] (a + needle + b);
        found_between(a, needle, b);
    }
}

/// A text is found between any two others.
pub proof fn found_between(a: Seq<char>, needle: Seq<char>, b: Seq<char>)
    ensures
        occurs_at(a + needle + b, needle, a.len() as int),
        occurs(a + needle + b, needle),
{
    let hay = a + needle + b;
    assert(hay.subrange(a.len() as int, (a.len() + needle.len()) as int) =~= needle);
    assert(occurs_at(hay, needle, a.len() as int));
}

/// Of two texts that first differ in one character, the one with the smaller character comes
/// first.
pub proof fn first_difference_decides(
    common: Seq<char>,
    x: char,
    y: char,
    s: Seq<char>,
    t: Seq<char>,
)
    requires
        x != y,
    ensures
        not_after(common + seq![x] + s, common + seq![y] + t) <==> (x as int) < (y as int),
    decreases common.len(),
{
    let a = common + seq![x] + s;
    let b = common + seq![y] + t;
    if common.len() > 0 {
        let rest = common.drop_first();
        first_difference_decides(rest, x, y, s, t);
        assert(a.drop_first() =~= rest + seq![x] + s);
        assert(b.drop_first() =~= rest + seq![y] + t);
    }
}

/// A text comes before its continuations, and not after.
pub proof fn beginning_comes_first(s: Seq<char>, more: Seq<char>)
    ensures
        not_after(s, s + more),
        more.len() > 0 ==> !not_after(s + more, s),
    decreases s.len(),
{
    if s.len() > 0 {
        beginning_comes_first(s.drop_first(), more);
        assert((s + more).drop_first() =~= s.drop_first() + more);
    }
}

/// Texts are encoded piece by piece.
pub proof fn encoding_is_piece_by_piece(s: Seq<char>, t: Seq<char>)
    ensures
        utf16(s + t) == utf16(s) + utf16(t),
    decreases t.len(),
{
    if t.len() == 0 {
        assert(s + t =~= s);
        assert(utf16(s) + utf16(t) =~= utf16(s));
    } else {
        encoding_is_piece_by_piece(s, t.drop_last());
        assert((s + t).drop_last() =~= s + t.drop_last());
        assert(utf16(s + t) =~= utf16(s) + utf16(t));
    }
}

/// A character below number 65536 is encoded by its number, and any other by a first and a
/// second half that make up its number.
pub proof fn characters_are_encoded_by_number(c: char)
    ensures
        (c as int) < 0x10000 ==> utf16(seq![c]).len() == 1 && utf16(seq![c])[0] as int == c as int,
        (c as int) >= 0x10000 ==> {
            let u = utf16(seq![c]);
            &&& u.len() == 2
            &&& 0xD800 <= u[0] <= 0xDBFF
            &&& 0xDC00 <= u[1] <= 0xDFFF
            &&& 0x10000 + 0x400 * (u[0] - 0xD800) + (u[1] - 0xDC00) == c as int
        },
{
    reveal_with_fuel(utf16, 2);
    assert(seq![c].drop_last() =~= Seq::empty());
    assert(utf16(seq![c]) =~= units(c));
}

/// What is handed to the system is the encoded text with a zero at the end.
pub proof fn texts_end_in_zero(s: Seq<char>)
    ensures
        utf16z(s).len() == utf16(s).len() + 1,
        utf16z(s).last() == 0,
        utf16z(s).drop_last() == utf16(s),
        decoded(utf16z(s).drop_last()) == s,
{
    assert(utf16z(s).drop_last() =~= utf16(s));
    decoding_undoes_encoding(s);
}

/// Behind an encoded text, half of a pair that stands alone is decoded to the one replacement
/// character, and decoding goes on behind it.
pub proof fn lone_halves_are_replaced(s: Seq<char>, u: u16, rest: Seq<u16>)
    requires
        0xD800 <= u <= 0xDFFF,
        u <= 0xDBFF ==> rest.len() == 0 || !(0xDC00 <= rest[0] <= 0xDFFF),
    ensures
        decoded(utf16(s) + (seq![u] + rest)) == s + seq!['\u{FFFD}'] + decoded(rest),
{
    decoding_goes_on_behind_a_text(s, seq![u] + rest);
    assert((seq![u] + rest).skip(1) =~= rest);
    assert(s + (seq!['\u{FFFD}'] + decoded(rest)) =~= s + seq!['\u{FFFD}'] + decoded(rest));
}

/// Rounding gives the nearest integer, and the even one of two that are equally near.
pub proof fn rounding_is_to_the_nearest(n: nat, d: nat)
    requires
        d > 0,
    ensures
        -(d as int) <= 2 * (n - rounded(n, d) * d) <= d,
        2 * (n - rounded(n, d) * d) == d || 2 * (n - rounded(n, d) * d) == -(d as int)
            ==> rounded(n, d) % 2 == 0,
{
    let q: int = n as int / d as int;
    let m: int = n as int % d as int;
    vstd::arithmetic::div_mod::lemma_fundamental_div_mod(n as int, d as int);
    assert(0 <= m < d);
    assert(q * d == d * q) by (nonlinear_arith);
    assert((q + 1) * d == d * q + d) by (nonlinear_arith);
}

/// The double-precision numbers around an integer from 2^53 on are a power of two apart, such
/// that the integer counts at least 2^52 and fewer than 2^53 of these steps; those below are
/// one apart.
pub proof fn doubles_have_fifty_three_bits(n: nat)
    ensures
        n < 0x20_0000_0000_0000 ==> spacing(n) == 1,
        n >= 0x20_0000_0000_0000 ==> 0x10_0000_0000_0000 * spacing(n) <= n
            < 0x20_0000_0000_0000 * spacing(n),
        exists|k: nat| spacing(n) == #[trigger] pow2(k),
    decreases n,
{
    vstd::arithmetic::power2::lemma2_to64();
    if n >= 0x20_0000_0000_0000 {
        doubles_have_fifty_three_bits(n / 2);
        let k = choose|k: nat| spacing(n / 2) == #[trigger] pow2(k);
        vstd::arithmetic::power2::lemma_pow2_unfold(k + 1);
        assert(spacing(n) == pow2(k + 1));
    } else {
        assert(spacing(n) == pow2(0));
    }
}

/// A size is shown in tenths of 2^30 bytes: the whole, a point, and one digit. The number is
/// the nearest to the size as a double-precision number, which in turn is the nearest to the
/// size, each time the even one of two that are equally near.
pub proof fn size_is_shown_in_tenths(bytes: nat)
    ensures
        ({
            let t = gib_text(bytes);
            let at = t.len() - 2;
            let tenths: int = gib_tenths(bytes) as int;
            let double: int = as_double(bytes) as int;
            &&& at >= 1
            &&& t[at] == '.'
            &&& 48 <= t[at + 1] as int <= 57
            &&& 10 * read_decimal(t.take(at)) + (t[at + 1] as int - 48) == tenths
            &&& -1073741824 <= 2 * (10 * double - tenths * 1073741824) <= 1073741824
            &&& 2 * (10 * double - tenths * 1073741824) == 1073741824 || 2 * (10 * double - tenths
                * 1073741824) == -1073741824 ==> tenths % 2 == 0
            &&& -(spacing(bytes) as int) <= 2 * (bytes - double) <= spacing(bytes)
            &&& double == rounded(bytes, spacing(bytes)) * spacing(bytes)
            &&& bytes < 0x20_0000_0000_0000 ==> double == bytes
        }),
{
    let tenths = gib_tenths(bytes);
    let t = gib_text(bytes);
    decimal_reads_back(tenths / 10);
    assert(t.take(t.len() - 2) =~= decimal(tenths / 10));
    doubles_have_fifty_three_bits(bytes);
    let k = choose|k: nat| spacing(bytes) == #[trigger] pow2(k);
    vstd::arithmetic::power2::lemma_pow2_pos(k);
    rounding_is_to_the_nearest(bytes, spacing(bytes));
    rounding_is_to_the_nearest(10 * as_double(bytes), 1073741824);
    if bytes < 0x20_0000_0000_0000 {
        assert(rounded(bytes, 1) == bytes);
        assert(bytes * 1 == bytes);
    }
}

} // verus!
