//! Sizes in gigabytes with one decimal.

use vstd::prelude::*;
use crate::text::{decimal, decimal_string, digit};

verus! {

/// Bytes in one gigabyte.
pub const GIB: u64 = 0x4000_0000;

/// `n / d` rounded to the nearest integer, and to the even one of two that
/// are equally near.
pub open spec fn rounded(n: nat, d: nat) -> nat {
    if 2 * (n % d) < d || (2 * (n % d) == d && (n / d) % 2 == 0) {
        n / d
    } else {
        n / d + 1
    }
}

/// The distance of neighbouring double-precision numbers around the integer `n`,
/// which have 53 significant bits.
pub open spec fn spacing(n: nat) -> nat
    decreases n,
{
    if n < 0x20_0000_0000_0000 {
        1
    } else {
        2 * spacing(n / 2)
    }
}

/// The double-precision number nearest to the integer `n`.
pub open spec fn as_double(n: nat) -> nat {
    rounded(n, spacing(n)) * spacing(n)
}

/// The tenths of a gigabyte that `bytes` are shown as.
pub open spec fn gib_tenths(bytes: nat) -> nat {
    rounded(10 * as_double(bytes), GIB as nat)
}

/// `bytes` in gigabytes, with one decimal.
pub open spec fn gib_text(bytes: nat) -> Seq<char> {
    decimal(gib_tenths(bytes) / 10) + seq!['.', digit(gib_tenths(bytes) % 10)]
}

/// `n / d` rounded to the nearest integer, and to the even one of two that
/// are equally near.
fn round_half_even(n: u128, d: u128) -> (r: u128)
    requires
        0 < d <= GIB,
    ensures
        r == rounded(n as nat, d as nat),
{
    let q: u128 = n / d;
    let m: u128 = n % d;
    if 2 * m < d || (2 * m == d && q % 2 == 0) {
        q
    } else {
        assert(q < u128::MAX) by (nonlinear_arith)
            requires
                q == n / d,
                m == n % d,
                0 < d,
                2 * m >= d,
                n <= u128::MAX,
                d == 1 ==> m == 0,
        ;
        q + 1
    }
}

/// A shift by eleven places brings every 64-bit integer below 53 bits.
proof fn spacing_bound(n: nat, k: nat)
    requires
        k <= 11,
        n < 0x20_0000_0000_0000 * vstd::arithmetic::power2::pow2(k),
    ensures
        0 < spacing(n) <= vstd::arithmetic::power2::pow2(k),
    decreases k,
{
    vstd::arithmetic::power2::lemma2_to64();
    vstd::arithmetic::power2::lemma_pow2_pos(k);
    if n >= 0x20_0000_0000_0000 {
        if k > 0 {
            let j = (k - 1) as nat;
            vstd::arithmetic::power2::lemma_pow2_unfold(k);
            assert(n / 2 < 0x20_0000_0000_0000 * vstd::arithmetic::power2::pow2(j));
            spacing_bound(n / 2, j);
        }
    }
}

/// The distance of neighbouring double-precision numbers around `n`.
fn spacing_at(n: u64) -> (r: u64)
    ensures
        r == spacing(n as nat),
        0 < r <= 0x800,
{
    proof {
        vstd::arithmetic::power2::lemma2_to64();
        spacing_bound(n as nat, 11);
    }
    let mut x: u64 = n;
    let mut s: u64 = 1;
    while x >= 0x20_0000_0000_0000
        invariant
            0 < s,
            s * spacing(x as nat) == spacing(n as nat),
            spacing(n as nat) <= 0x800,
        decreases x,
    {
        assert(spacing((x / 2) as nat) >= 1) by {
            vstd::arithmetic::power2::lemma2_to64();
            spacing_bound((x / 2) as nat, 11);
        }
        assert(s * (2 * spacing((x / 2) as nat)) == (2 * s) * spacing((x / 2) as nat))
            by (nonlinear_arith);
        assert(2 * s <= (2 * s) * spacing((x / 2) as nat)) by (nonlinear_arith)
            requires
                0 < s,
                spacing((x / 2) as nat) >= 1,
        ;
        x = x / 2;
        s = 2 * s;
    }
    assert(spacing(x as nat) == 1);
    assert(s * 1 == s);
    s
}

/// A size in gigabytes, with one decimal.
pub fn gib_string(bytes: u64) -> (r: String)
    ensures
        r@ == gib_text(bytes as nat),
{
    let s: u64 = spacing_at(bytes);
    let q: u128 = round_half_even(bytes as u128, s as u128);
    assert(q <= 0x1_0000_0000_0000_0000 && q * s <= 0x1_0000_0000_0001_0000) by (nonlinear_arith)
        requires
            q <= bytes / s + 1,
            0 < s <= 0x800,
            bytes <= 0xFFFF_FFFF_FFFF_FFFF,
    ;
    let d: u128 = q * (s as u128);
    let t: u128 = round_half_even(10 * d, GIB as u128);
    let t: u64 = t as u64;
    let mut out = decimal_string(t / 10);
    out.push('.');
    out.push((48u8 + (t % 10) as u8) as char);
    assert(out@ =~= gib_text(bytes as nat));
    out
}

/// Up to eight million gigabytes, the shown size is as near to the true one
/// as one decimal allows: within half of a tenth of a gigabyte.
pub proof fn shown_size_is_nearest(bytes: nat)
    requires
        bytes < 0x20_0000_0000_0000,
    ensures
        2 * (gib_tenths(bytes) * GIB - 10 * bytes) <= GIB,
        2 * (10 * bytes - gib_tenths(bytes) * GIB) <= GIB,
{
    assert(spacing(bytes) == 1);
    assert(rounded(bytes, 1) == bytes);
    assert(bytes * 1 == bytes);
}

} // verus!
