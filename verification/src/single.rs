//! Single-precision reals, held by their IEEE-754 bit pattern.
//!
//! This library computes with no floating point. A real is carried as the 32 bits of
//! its single-precision form, two reals are equal where their bits are, and the one
//! piece of arithmetic is the rounding of an integer to the nearest single.

use vstd::prelude::*;
use vstd::arithmetic::div_mod::lemma_div_denominator;
use vstd::arithmetic::power2::{
    lemma2_to64, lemma2_to64_rest, lemma_pow2_adds, lemma_pow2_pos, lemma_pow2_unfold, pow2,
};

verus! {

/// A single-precision real, identified by its 32 bits (sign, 8 exponent bits, 23 fraction bits).
#[derive(Clone, Copy, Debug, PartialEq, Eq, Structural)]
pub struct Single {
    pub bits: u32,
}

impl View for Single {
    type V = Single;

    open spec fn view(&self) -> Single {
        *self
    }
}

/// Bits of `0.0`.
pub const ZERO_BITS: u32 = 0;

/// Bits of `0.5`.
pub const HALF_BITS: u32 = 0x3F00_0000;

/// Bits of `1.0`.
pub const ONE_BITS: u32 = 0x3F80_0000;

/// Bits of `-1.0`.
pub const MINUS_ONE_BITS: u32 = 0xBF80_0000;

/// Bits of `100.0`.
pub const HUNDRED_BITS: u32 = 0x42C8_0000;

/// The position of the highest set bit of `m`, counted from 0; 0 for `m == 0`.
pub open spec fn magnitude_exponent(m: nat) -> nat
    decreases m,
{
    if m < 2 {
        0
    } else {
        1 + magnitude_exponent(m / 2)
    }
}

/// The bits, without the sign, of the single nearest to the natural number `m`, a tie
/// going to the even significand. With `e` the position of the highest set bit, the
/// significand is `m` itself on 24 bits where `e <= 23`, else `m` without its lowest
/// `e - 23` bits, rounded; the exponent field is `e + 127`, and a significand that
/// rounding carries to `2^24` moves into it.
pub open spec fn single_of_magnitude(m: nat) -> nat {
    if m == 0 {
        0
    } else {
        let e = magnitude_exponent(m);
        if e <= 23 {
            ((e + 127) * 0x80_0000 + (m * pow2((23 - e) as nat) - 0x80_0000)) as nat
        } else {
            let unit = pow2((e - 23) as nat);
            let kept = m / unit;
            let rest = m % unit;
            let up: nat = if 2 * rest > unit || (2 * rest == unit && kept % 2 == 1) {
                1
            } else {
                0
            };
            ((e + 127) * 0x80_0000 + (kept + up - 0x80_0000)) as nat
        }
    }
}

/// The bits of the single nearest to the integer `v`.
pub open spec fn single_of_int(v: int) -> u32 {
    if v < 0 {
        (0x8000_0000 + single_of_magnitude((-v) as nat)) as u32
    } else {
        single_of_magnitude(v as nat) as u32
    }
}

proof fn lemma_pow2_127()
    ensures
        pow2(127) == 0x8000_0000_0000_0000_0000_0000_0000_0000,
{
    lemma2_to64_rest();
    lemma_pow2_adds(64, 63);
    assert(0x1_0000_0000_0000_0000 * 0x8000_0000_0000_0000
        == 0x8000_0000_0000_0000_0000_0000_0000_0000int) by (nonlinear_arith);
}

/// `2^k` for `k <= 127`.
fn power_of_two(k: u32) -> (p: u128)
    requires
        k <= 127,
    ensures
        p == pow2(k as nat),
{
    let mut p: u128 = 1;
    let mut i: u32 = 0;
    proof {
        lemma2_to64();
    }
    while i < k
        invariant
            i <= k <= 127,
            p == pow2(i as nat),
        decreases k - i,
    {
        proof {
            lemma_pow2_unfold((i + 1) as nat);
            lemma_pow2_127();
            lemma_pow2_adds((i + 1) as nat, (127 - (i + 1)) as nat);
            lemma_pow2_pos((127 - (i + 1)) as nat);
            assert(pow2((i + 1) as nat) <= pow2(127)) by (nonlinear_arith)
                requires
                    pow2((i + 1) as nat) * pow2((127 - (i + 1)) as nat) == pow2(127),
                    pow2((127 - (i + 1)) as nat) > 0,
                    pow2((i + 1) as nat) >= 0,
            ;
        }
        p = p * 2;
        i = i + 1;
    }
    p
}

/// The bits, without the sign, of the single nearest to `m`.
fn bits_of_magnitude(m: u128) -> (bits: u32)
    ensures
        bits == single_of_magnitude(m as nat),
        bits <= 0x7F80_0000,
{
    if m == 0 {
        return 0;
    }
    let mut e: u32 = 0;
    let mut p: u128 = 1;
    proof {
        lemma2_to64();
    }
    while p <= m / 2
        invariant
            1 <= p <= m,
            e <= 127,
            p == pow2(e as nat),
            magnitude_exponent(m as nat) == e + magnitude_exponent((m / p) as nat),
        decreases m - p,
    {
        proof {
            lemma_div_denominator(m as int, p as int, 2);
            assert(m / p >= 2) by (nonlinear_arith)
                requires
                    2 * p <= m,
                    p >= 1,
            ;
            lemma_pow2_unfold((e + 1) as nat);
            if e >= 127 {
                lemma_pow2_127();
            }
        }
        p = p * 2;
        e = e + 1;
    }
    proof {
        assert(m / p == 1) by (nonlinear_arith)
            requires
                p <= m < 2 * p,
                p >= 1,
        ;
    }
    assert(e == magnitude_exponent(m as nat));
    let exponent: u32 = (e + 127) * 0x80_0000;
    if e <= 23 {
        let scale: u128 = power_of_two(23 - e);
        proof {
            lemma_pow2_adds(e as nat, (23 - e) as nat);
            assert(0x80_0000 <= m * scale < 0x100_0000) by (nonlinear_arith)
                requires
                    p <= m < 2 * p,
                    p * scale == 0x80_0000,
                    scale >= 1,
            ;
        }
        let significand: u128 = m * scale;
        exponent + ((significand - 0x80_0000) as u32)
    } else {
        let unit: u128 = power_of_two(e - 23);
        proof {
            lemma_pow2_adds((e - 23) as nat, 23);
            lemma_pow2_pos((e - 23) as nat);
            assert(0x80_0000 <= m / unit < 0x100_0000) by (nonlinear_arith)
                requires
                    p <= m < 2 * p,
                    unit * 0x80_0000 == p,
                    unit >= 1,
            ;
        }
        let kept: u128 = m / unit;
        let rest: u128 = m % unit;
        let half: u128 = unit / 2;
        // `unit` is even here, so `2 * rest` against `unit` is `rest` against `half`
        proof {
            lemma_pow2_unfold((e - 23) as nat);
        }
        let up: u128 = if rest > half || (rest == half && kept % 2 == 1) {
            1
        } else {
            0
        };
        let significand: u128 = kept + up;
        exponent + ((significand - 0x80_0000) as u32)
    }
}

impl Single {
    /// The single nearest to the integer `v`, a tie going to the even significand.
    pub fn from_int(v: i128) -> (r: Single)
        ensures
            r.bits == single_of_int(v as int),
    {
        if v >= 0 {
            Single { bits: bits_of_magnitude(v as u128) }
        } else if v == i128::MIN {
            let magnitude: u128 = 0x8000_0000_0000_0000_0000_0000_0000_0000;
            Single { bits: 0x8000_0000 + bits_of_magnitude(magnitude) }
        } else {
            Single { bits: 0x8000_0000 + bits_of_magnitude((-v) as u128) }
        }
    }
}

} // verus!
