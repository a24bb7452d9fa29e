use vstd::arithmetic::div_mod::lemma_fundamental_div_mod_converse;
use vstd::arithmetic::power2::{lemma2_to64, lemma2_to64_rest, lemma_pow2_unfold, pow2};
use crate::price::STORK_EXPONENT;
use vstd::prelude::*;

verus! {

/// Number of fractional bits of a [`Fraction`].
pub const FRACTION_BITS: u32 = 60;

/// Largest decimal exponent whose power of ten fits in a `u128`.
pub const MAX_DECIMAL_EXP: u32 = 38;

/// A quantized value and its decimal exponent: the price is `value / 10^exp`.
#[derive(Debug, Clone, Copy, PartialEq, Eq, Structural)]
pub struct Price {
    pub value: i128,
    pub exp: u32,
}

/// A signed fixed-point number with [`FRACTION_BITS`] fractional bits, held
/// as a sign and a magnitude: it stands for `bits / 2^FRACTION_BITS`, negated
/// when `negative`. Zero is never negative.
#[derive(Debug, Clone, Copy, PartialEq, Eq, Structural)]
pub struct Fraction {
    pub negative: bool,
    pub bits: u128,
}

/// `10^e` as a mathematical integer.
pub open spec fn pow10(e: nat) -> int
    decreases e,
{
    if e == 0 {
        1
    } else {
        10 * pow10((e - 1) as nat)
    }
}

pub open spec fn abs(v: int) -> int {
    if v < 0 {
        -v
    } else {
        v
    }
}

/// Fixed-point magnitude of `value / 10^exp`, truncated toward zero.
pub open spec fn fraction_bits(value: int, exp: nat) -> int {
    abs(value) * pow2(FRACTION_BITS as nat) / pow10(exp)
}

/// A price converts when its power of ten fits in a `u128` and its
/// fixed-point magnitude fits in a `u128`.
pub open spec fn price_converts(p: Price) -> bool {
    &&& p.exp <= MAX_DECIMAL_EXP
    &&& fraction_bits(p.value as int, p.exp as nat) <= u128::MAX
}

/// What [`price_to_fraction`] yields for a price.
pub open spec fn price_fraction(p: Price) -> Option<Fraction> {
    if price_converts(p) {
        let bits = fraction_bits(p.value as int, p.exp as nat);
        Some(Fraction { negative: p.value < 0 && bits != 0, bits: bits as u128 })
    } else {
        None
    }
}

proof fn lemma_pow10_bounds(e: nat)
    requires
        e <= MAX_DECIMAL_EXP,
    ensures
        1 <= pow10(e) <= pow10(MAX_DECIMAL_EXP as nat),
    decreases MAX_DECIMAL_EXP - e,
{
    if e < MAX_DECIMAL_EXP {
        lemma_pow10_bounds(e + 1);
    } else {
        lemma_pow10_positive(e);
    }
}

proof fn lemma_pow10_positive(e: nat)
    ensures
        pow10(e) >= 1,
    decreases e,
{
    if e > 0 {
        lemma_pow10_positive((e - 1) as nat);
    }
}

proof fn lemma_pow10_max()
    ensures
        pow10(MAX_DECIMAL_EXP as nat) == 100_000_000_000_000_000_000_000_000_000_000_000_000,
{
    reveal_with_fuel(pow10, 39);
}

/// `10^exp` for an exponent whose power fits in a `u128`.
pub fn ten_pow(exp: u32) -> (r: u128)
    requires
        exp <= MAX_DECIMAL_EXP,
    ensures
        r == pow10(exp as nat),
        r >= 1,
{
    proof {
        lemma_pow10_max();
        lemma_pow10_positive(exp as nat);
    }
    let mut r: u128 = 1;
    let mut i: u32 = 0;
    while i < exp
        invariant
            i <= exp <= MAX_DECIMAL_EXP,
            r == pow10(i as nat),
        decreases exp - i,
    {
        proof {
            lemma_pow10_bounds((i + 1) as nat);
            lemma_pow10_max();
            assert(pow10((i + 1) as nat) == 10 * pow10(i as nat));
        }
        r = r * 10;
        i = i + 1;
    }
    r
}

/// The magnitude of an `i128` as a `u128`.
pub(crate) fn magnitude(v: i128) -> (r: u128)
    ensures
        r == abs(v as int),
{
    if v < 0 {
        ((-(v + 1)) as u128) + 1
    } else {
        v as u128
    }
}

/// `rem * 2^FRACTION_BITS / d` by binary long division, for `rem < d`.
fn shifted_quotient(rem: u128, d: u128) -> (r: u128)
    requires
        rem < d,
        d <= pow10(MAX_DECIMAL_EXP as nat),
    ensures
        r == rem * pow2(FRACTION_BITS as nat) / (d as int),
        r < pow2(FRACTION_BITS as nat),
{
    proof {
        lemma_pow10_max();
        lemma2_to64();
        lemma2_to64_rest();
    }
    let mut acc: u128 = 0;
    let mut left: u128 = rem;
    let mut i: u32 = 0;
    while i < FRACTION_BITS
        invariant
            i <= FRACTION_BITS,
            d <= 100_000_000_000_000_000_000_000_000_000_000_000_000,
            rem < d,
            left < d,
            acc < pow2(i as nat),
            acc * d + left == rem * pow2(i as nat),
            pow2(FRACTION_BITS as nat) == 0x1000000000000000,
        decreases FRACTION_BITS - i,
    {
        proof {
            lemma_pow2_unfold((i + 1) as nat);
            assert(pow2(i as nat) <= pow2(FRACTION_BITS as nat)) by {
                vstd::arithmetic::power2::lemma_pow2_strictly_increases(i as nat, FRACTION_BITS as nat);
            }
        }
        let ghost old_acc = acc;
        let ghost old_left = left;
        let twice: u128 = left * 2;
        if twice >= d {
            acc = acc * 2 + 1;
            left = twice - d;
        } else {
            acc = acc * 2;
            left = twice;
        }
        proof {
            assert(acc * d + left == rem * pow2((i + 1) as nat)) by (nonlinear_arith)
                requires
                    pow2((i + 1) as nat) == 2 * pow2(i as nat),
                    old_acc * d + old_left == rem * pow2(i as nat),
                    acc == 2 * old_acc + 1 && left == 2 * old_left - d || acc == 2 * old_acc
                        && left == 2 * old_left,
            {
            }
        }
        i = i + 1;
    }
    proof {
        lemma_fundamental_div_mod_converse(
            rem * pow2(FRACTION_BITS as nat),
            d as int,
            acc as int,
            left as int,
        );
    }
    acc
}

/// Converts `value / 10^exp` into a fixed-point [`Fraction`], truncating
/// toward zero; `None` when the power of ten or the result does not fit.
pub fn price_to_fraction(price: Price) -> (r: Option<Fraction>)
    ensures
        r == price_fraction(price),
        price.exp == STORK_EXPONENT ==> r is Some,
{
    if price.exp > MAX_DECIMAL_EXP {
        return None;
    }
    proof {
        lemma_pow10_bounds(price.exp as nat);
        lemma2_to64();
        lemma2_to64_rest();
    }
    let d: u128 = ten_pow(price.exp);
    let m: u128 = magnitude(price.value);
    let whole: u128 = m / d;
    let rem: u128 = m % d;
    proof {
        if price.exp == STORK_EXPONENT {
            lemma_stork_whole_part_bound(m as int, d as int, whole as int);
        }
    }
    // A whole part of 2^68 or more, shifted by 2^60, passes u128::MAX.
    if whole >= 0x10_0000_0000_0000_0000u128 {
        proof {
            lemma_split_quotient(m as int, d as int, whole as int, rem as int);
        }
        return None;
    }
    let low: u128 = shifted_quotient(rem, d);
    // 2^60 is one whole unit in fixed point.
    let bits_mag: u128 = whole * 0x1000_0000_0000_0000u128 + low;
    proof {
        lemma_split_quotient(m as int, d as int, whole as int, rem as int);
    }
    Some(Fraction { negative: price.value < 0 && bits_mag != 0, bits: bits_mag })
}

/// Every `i128` has fewer than 2^68 whole units at Stork's exponent.
proof fn lemma_stork_whole_part_bound(m: int, d: int, whole: int)
    requires
        0 <= m <= 0x8000_0000_0000_0000_0000_0000_0000_0000,
        d == pow10(STORK_EXPONENT as nat),
        whole == m / d,
    ensures
        whole < 0x10_0000_0000_0000_0000,
{
    reveal_with_fuel(pow10, 19);
    vstd::arithmetic::div_mod::lemma_fundamental_div_mod(m, d);
    vstd::arithmetic::div_mod::lemma_mod_pos_bound(m, d);
    assert(whole < 0x10_0000_0000_0000_0000) by (nonlinear_arith)
        requires
            m == d * whole + m % d,
            m % d >= 0,
            d == 1_000_000_000_000_000_000,
            m <= 0x8000_0000_0000_0000_0000_0000_0000_0000,
    {
    }
}

/// `(whole * d + rem) * 2^FRACTION_BITS / d` splits into the shifted whole
/// part and the shifted remainder's quotient.
pub(crate) proof fn lemma_split_quotient(m: int, d: int, whole: int, rem: int)
    requires
        d > 0,
        whole == m / d,
        rem == m % d,
        m >= 0,
    ensures
        m * pow2(FRACTION_BITS as nat) / d == whole * pow2(FRACTION_BITS as nat) + rem
            * pow2(FRACTION_BITS as nat) / d,
{
    let p = pow2(FRACTION_BITS as nat) as int;
    vstd::arithmetic::div_mod::lemma_fundamental_div_mod(m, d);
    vstd::arithmetic::div_mod::lemma_fundamental_div_mod(rem * p, d);
    let f = rem * p / d;
    let g = rem * p % d;
    assert(m * p == d * (whole * p + f) + g) by (nonlinear_arith)
        requires
            m == d * whole + rem,
            rem * p == d * f + g,
    {
    }
    vstd::arithmetic::div_mod::lemma_mod_pos_bound(rem * p, d);
    lemma_fundamental_div_mod_converse(m * p, d, whole * p + f, g);
}

} // verus!
