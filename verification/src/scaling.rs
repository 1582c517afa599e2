//! Scaling a pixel extent by a double-precision factor.
//!
//! The scaled extent is the product of the extent and the factor as double
//! precision computes it, without its fraction: the exact product is first
//! rounded to 53 significant bits, ties to even, and then cut to a whole
//! number, which is held to the range of `i32`. The rounding matters: three
//! times the double nearest to one third is one, not zero.
//!
//! The rounding is stated without a least or a greatest exponent. That
//! changes nothing in the whole part: a product too small for 53 bits in
//! double precision is below one either way, and one too large for double
//! precision is beyond the range of `i32` either way.

use vstd::prelude::*;
use vstd::arithmetic::div_mod::{
    lemma_basic_div,
    lemma_div_denominator,
    lemma_div_multiples_vanish,
    lemma_fundamental_div_mod,
    lemma_mod_multiples_basic,
    lemma_small_div_converse,
};
use vstd::arithmetic::power2::{
    lemma2_to64,
    lemma2_to64_rest,
    lemma_pow2_pos,
    lemma_pow2_strictly_increases,
    lemma_pow2_unfold,
    pow2,
};
use crate::binary64::{Binary64, FRACTION_WEIGHT, INFINITY_MAGNITUDE, SIGN_WEIGHT};
use crate::size::ImageSize;

verus! {

/// Two to the power 53: below it every natural number is a double.
pub const EXACT_LIMIT: u128 = 0x20_0000_0000_0000;

/// The distance between neighbouring numbers of 53 significant bits at `n`:
/// 1 below two to the power 53, and twice as much with each further bit.
pub open spec fn spacing(n: nat) -> nat
    decreases n,
{
    if n < 0x20_0000_0000_0000 {
        1
    } else {
        2 * spacing(n / 2)
    }
}

/// `n` rounded to the nearest multiple of `unit`, and to the even multiple
/// when two are equally near.
pub open spec fn round_to_multiple(n: nat, unit: nat) -> nat {
    let below = n / unit;
    let rest = n % unit;
    if 2 * rest > unit || (2 * rest == unit && below % 2 == 1) {
        (below + 1) * unit
    } else {
        below * unit
    }
}

/// `n` rounded to 53 significant bits.
pub open spec fn round_to_precision(n: nat) -> nat {
    round_to_multiple(n, spacing(n))
}

/// The whole part of `extent` times the absolute value of a finite `scale`,
/// the product rounded to 53 significant bits.
pub open spec fn scaled_magnitude(extent: nat, scale: Binary64) -> nat {
    let product = round_to_precision(extent * scale.significand());
    if scale.binary_exponent() >= 0 {
        product * pow2(scale.binary_exponent() as nat)
    } else {
        product / pow2((-scale.binary_exponent()) as nat)
    }
}

/// The absolute value of an extent.
pub open spec fn length_of(extent: i32) -> nat {
    if extent < 0 {
        (-extent) as nat
    } else {
        extent as nat
    }
}

/// `extent` times `scale`, cut to a whole number: 0 where the product is not
/// a number, the nearest end of the range of `i32` where it lies outside.
pub open spec fn spec_scale_extent(extent: i32, scale: Binary64) -> i32 {
    if scale.is_nan() || extent == 0 {
        0
    } else {
        let negative = (extent < 0) != scale.sign();
        let whole = scaled_magnitude(length_of(extent), scale);
        if negative {
            if scale.is_infinite() || whole >= 0x8000_0000 {
                i32::MIN
            } else {
                (-whole) as i32
            }
        } else {
            if scale.is_infinite() || whole > 0x7FFF_FFFF {
                i32::MAX
            } else {
                whole as i32
            }
        }
    }
}

/// Rounds `n` to 53 significant bits.
pub fn round_product(n: u128) -> (rounded: u128)
    requires
        n < 0x10_0000_0000_0000_0000_0000,
    ensures
        rounded == round_to_precision(n as nat),
        2 * rounded >= n,
{
    let mut unit: u128 = 1;
    let mut rest: u128 = n;
    while rest >= EXACT_LIMIT
        invariant
            1 <= unit <= 0x1_0000_0000,
            rest == n / unit,
            spacing(n as nat) == unit * spacing(rest as nat),
            unit == 1 || unit * 0x10_0000_0000_0000 <= n,
            n < 0x10_0000_0000_0000_0000_0000,
        decreases rest,
    {
        proof {
            lemma_div_denominator(n as int, unit as int, 2);
            lemma_fundamental_div_mod(n as int, unit as int);
            let half: nat = (rest / 2) as nat;
            assert(spacing(rest as nat) == 2 * spacing(half));
            assert(unit * (2 * spacing(half)) == (unit * 2) * spacing(half))
                by (nonlinear_arith);
            assert(unit * 0x20_0000_0000_0000 <= n) by (nonlinear_arith)
                requires
                    n == unit * rest + (n % unit),
                    n % unit >= 0,
                    rest >= 0x20_0000_0000_0000,
                    unit >= 1,
            ;
        }
        rest = rest / 2;
        unit = unit * 2;
    }
    let below: u128 = n / unit;
    let over: u128 = n % unit;
    proof {
        lemma_fundamental_div_mod(n as int, unit as int);
        assert(unit * below == below * unit) by (nonlinear_arith);
        assert((below + 1) * unit == below * unit + unit) by (nonlinear_arith);
        assert(spacing(rest as nat) == 1);
        assert(spacing(n as nat) == unit) by (nonlinear_arith)
            requires
                spacing(n as nat) == unit * spacing(rest as nat),
                spacing(rest as nat) == 1,
        ;
    }
    if 2 * over > unit || (2 * over == unit && below % 2 == 1) {
        (below + 1) * unit
    } else {
        below * unit
    }
}

/// Halves `n` as often as `times` says, dropping the remainders.
pub fn halve(n: u128, times: u64) -> (quotient: u128)
    ensures
        quotient == n as nat / pow2(times as nat),
{
    let mut quotient: u128 = n;
    let mut done: u64 = 0;
    proof {
        lemma2_to64();
    }
    while done < times && quotient > 0
        invariant
            done <= times,
            quotient == n as nat / pow2(done as nat),
        decreases times - done,
    {
        proof {
            lemma_pow2_pos(done as nat);
            lemma_pow2_unfold((done + 1) as nat);
            lemma_div_denominator(n as int, pow2(done as nat) as int, 2);
            assert(pow2(done as nat) * 2 == 2 * pow2(done as nat)) by (nonlinear_arith);
        }
        quotient = quotient / 2;
        done = done + 1;
    }
    proof {
        if done < times {
            lemma_pow2_pos(done as nat);
            lemma_small_div_converse(n as int, pow2(done as nat) as int);
            lemma_pow2_strictly_increases(done as nat, times as nat);
            lemma_basic_div(n as int, pow2(times as nat) as int);
        }
    }
    quotient
}

/// `extent` times `scale` as double precision computes it, cut to a whole
/// number and held to the range of `i32`.
pub fn scale_extent(extent: i32, scale: Binary64) -> (scaled: i32)
    ensures
        scaled == spec_scale_extent(extent, scale),
{
    let magnitude: u64 = scale.bits % SIGN_WEIGHT;
    if magnitude > INFINITY_MAGNITUDE || extent == 0 {
        return 0;
    }
    let negative: bool = (extent < 0) != (scale.bits >= SIGN_WEIGHT);
    if magnitude == INFINITY_MAGNITUDE {
        return if negative {
            i32::MIN
        } else {
            i32::MAX
        };
    }
    let field: u64 = magnitude / FRACTION_WEIGHT;
    let fraction: u64 = magnitude % FRACTION_WEIGHT;
    let significand: u64 = if field == 0 {
        fraction
    } else {
        fraction + FRACTION_WEIGHT
    };
    let length: u64 = if extent < 0 {
        (-(extent as i64)) as u64
    } else {
        extent as u64
    };
    assert(length * significand < 0x10_0000_0000_0000_0000_0000) by (nonlinear_arith)
        requires
            length <= 0x8000_0000,
            significand < 0x20_0000_0000_0000,
    ;
    let product: u128 = (length as u128) * (significand as u128);
    let rounded: u128 = round_product(product);
    let whole: u128 = if field >= 1075 {
        proof {
            let power: nat = (field - 1075) as nat;
            lemma_pow2_pos(power);
            assert(product >= 0x10_0000_0000_0000) by (nonlinear_arith)
                requires
                    product == length * significand,
                    length >= 1,
                    significand >= 0x10_0000_0000_0000,
            ;
            assert(rounded * pow2(power) >= 0x8_0000_0000_0000) by (nonlinear_arith)
                requires
                    rounded >= 0x8_0000_0000_0000,
                    pow2(power) >= 1,
            ;
        }
        0x8000_0000
    } else if field == 0 {
        halve(rounded, 1074)
    } else {
        halve(rounded, 1075 - field)
    };
    if negative {
        if whole >= 0x8000_0000 {
            i32::MIN
        } else {
            -(whole as i32)
        }
    } else {
        if whole > 0x7FFF_FFFF {
            i32::MAX
        } else {
            whole as i32
        }
    }
}

/// The size of an image whose width and height are both scaled by `scale`.
pub open spec fn spec_scale_size(size: ImageSize, scale: Binary64) -> ImageSize {
    ImageSize {
        width: spec_scale_extent(size.width, scale),
        height: spec_scale_extent(size.height, scale),
    }
}

/// Scales the width and the height of `size` by `scale`.
pub fn scale_size(size: ImageSize, scale: Binary64) -> (scaled: ImageSize)
    ensures
        scaled == spec_scale_size(size, scale),
{
    ImageSize {
        width: scale_extent(size.width, scale),
        height: scale_extent(size.height, scale),
    }
}

/// The spacing is never zero.
pub proof fn lemma_spacing_positive(n: nat)
    ensures
        spacing(n) >= 1,
    decreases n,
{
    if n >= 0x20_0000_0000_0000 {
        lemma_spacing_positive(n / 2);
    }
}

/// A number of at most 53 significant bits, followed by any number of zero
/// bits, is not changed by rounding.
pub proof fn lemma_shifted_is_exact(digits: nat, zeros: nat)
    requires
        digits < 0x20_0000_0000_0000,
    ensures
        (digits * pow2(zeros)) % spacing(digits * pow2(zeros)) == 0,
        round_to_precision(digits * pow2(zeros)) == digits * pow2(zeros),
    decreases zeros,
{
    let n: nat = digits * pow2(zeros);
    lemma_spacing_positive(n);
    if n >= 0x20_0000_0000_0000 {
        if zeros == 0 {
            lemma2_to64();
            assert(n == digits) by (nonlinear_arith)
                requires
                    n == digits * pow2(zeros),
                    pow2(zeros) == 1,
            ;
        } else {
            let fewer: nat = (zeros - 1) as nat;
            let half: nat = digits * pow2(fewer);
            lemma_pow2_unfold(zeros);
            assert(n == 2 * half) by (nonlinear_arith)
                requires
                    n == digits * pow2(zeros),
                    pow2(zeros) == 2 * pow2(fewer),
                    half == digits * pow2(fewer),
            ;
            lemma_shifted_is_exact(digits, fewer);
            lemma_spacing_positive(half);
            let unit: nat = spacing(half);
            let count: nat = half / unit;
            lemma_fundamental_div_mod(half as int, unit as int);
            assert(n == count * (2 * unit)) by (nonlinear_arith)
                requires
                    n == 2 * half,
                    half == unit * count,
            ;
            lemma_mod_multiples_basic(count as int, (2 * unit) as int);
            assert(spacing(n) == 2 * unit);
        }
    }
    let unit: nat = spacing(n);
    lemma_fundamental_div_mod(n as int, unit as int);
    assert((n / unit) * unit == unit * (n / unit)) by (nonlinear_arith);
}

/// Scaling by 1.0 changes no extent.
pub proof fn lemma_unit_scale_keeps_extent(extent: i32)
    ensures
        spec_scale_extent(extent, Binary64 { bits: 0x3FF0_0000_0000_0000 }) == extent,
{
    let one = Binary64 { bits: 0x3FF0_0000_0000_0000 };
    let length: nat = length_of(extent);
    lemma2_to64_rest();
    assert(one.magnitude() == 0x3FF0_0000_0000_0000);
    assert(one.exponent_field() == 1023);
    assert(one.fraction_field() == 0);
    assert(one.significand() == pow2(52));
    lemma_shifted_is_exact(length, 52);
    lemma_div_multiples_vanish(length as int, pow2(52) as int);
    assert(length * pow2(52) == pow2(52) * length) by (nonlinear_arith);
    assert(scaled_magnitude(length, one) == length);
}

/// Scaling by 2.0 doubles every extent whose double is an `i32`.
pub proof fn lemma_double_scale_doubles_extent(extent: i32)
    requires
        i32::MIN <= 2 * extent <= i32::MAX,
    ensures
        spec_scale_extent(extent, Binary64 { bits: 0x4000_0000_0000_0000 }) == 2 * extent,
{
    let two = Binary64 { bits: 0x4000_0000_0000_0000 };
    let length: nat = length_of(extent);
    lemma2_to64_rest();
    assert(two.magnitude() == 0x4000_0000_0000_0000);
    assert(two.exponent_field() == 1024);
    assert(two.fraction_field() == 0);
    assert(two.significand() == pow2(52));
    assert(two.binary_exponent() == -51);
    lemma_shifted_is_exact(length, 52);
    assert(length * pow2(52) == pow2(51) * (2 * length)) by (nonlinear_arith)
        requires
            pow2(52) == 2 * pow2(51),
    ;
    lemma_div_multiples_vanish((2 * length) as int, pow2(51) as int);
    assert(scaled_magnitude(length, two) == 2 * length);
}

} // verus!
