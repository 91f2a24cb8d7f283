//! Coordinates as IEEE 754 bit patterns.
//!
//! A font carries its coordinates as binary32 numbers and a shape carries
//! them as binary64 numbers. Both are handled here as their bit patterns,
//! `u32` and `u64`, so that the widening from the one to the other is plain
//! integer arithmetic and can be shown to lose nothing.

use vstd::arithmetic::power2::{
    lemma2_to64, lemma_pow2_adds, lemma_pow2_strictly_increases, lemma_pow2_unfold, pow2,
};
use vstd::prelude::*;

verus! {

/// The weight of the sign bit in a binary32 pattern.
pub const SINGLE_SIGN_UNIT: u32 = 0x8000_0000;

/// The weight of the lowest exponent bit in a binary32 pattern, which is
/// also the implicit leading bit of a normal significand.
pub const SINGLE_EXPONENT_UNIT: u32 = 0x80_0000;

/// The exponent field of binary32 infinities and NaNs.
pub const SINGLE_EXPONENT_TOP: u32 = 0xff;

/// The weight of the sign bit in a binary64 pattern.
pub const DOUBLE_SIGN_UNIT: u64 = 0x8000_0000_0000_0000;

/// The weight of the lowest exponent bit in a binary64 pattern, which is
/// also the implicit leading bit of a normal significand.
pub const DOUBLE_EXPONENT_UNIT: u64 = 0x10_0000_0000_0000;

/// The exponent field of binary64 infinities and NaNs.
pub const DOUBLE_EXPONENT_TOP: u64 = 0x7ff;

/// The weight of the quiet bit in the fraction of a binary64 NaN.
pub const DOUBLE_QUIET_UNIT: u64 = 0x8_0000_0000_0000;

/// The factor between a binary32 fraction and the binary64 fraction of the
/// same significand: the 29 fraction bits that binary64 has more.
pub const FRACTION_GAIN: u64 = 0x2000_0000;

/// The difference between the biases of the two exponent fields.
pub const BIAS_GAIN: u64 = 896;

/// The sign field of a binary32 pattern: 1 for a negative number.
pub open spec fn single_sign(bits: u32) -> nat {
    (bits / SINGLE_SIGN_UNIT) as nat
}

/// The exponent field of a binary32 pattern.
pub open spec fn single_exponent(bits: u32) -> nat {
    ((bits / SINGLE_EXPONENT_UNIT) % 0x100) as nat
}

/// The fraction field of a binary32 pattern.
pub open spec fn single_fraction(bits: u32) -> nat {
    (bits % SINGLE_EXPONENT_UNIT) as nat
}

/// Whether a binary32 pattern stands for a number, zero included.
pub open spec fn single_is_finite(bits: u32) -> bool {
    single_exponent(bits) != SINGLE_EXPONENT_TOP
}

/// Whether a binary32 pattern stands for an infinity.
pub open spec fn single_is_infinite(bits: u32) -> bool {
    single_exponent(bits) == SINGLE_EXPONENT_TOP && single_fraction(bits) == 0
}

/// Whether a binary32 pattern is a NaN.
pub open spec fn single_is_nan(bits: u32) -> bool {
    single_exponent(bits) == SINGLE_EXPONENT_TOP && single_fraction(bits) != 0
}

/// The absolute value of a finite binary32 pattern, counted in units of
/// 2^-149, the smallest positive binary32 number.
pub open spec fn single_magnitude(bits: u32) -> nat {
    if single_exponent(bits) == 0 {
        single_fraction(bits)
    } else {
        ((SINGLE_EXPONENT_UNIT + single_fraction(bits)) * pow2(
            (single_exponent(bits) - 1) as nat,
        )) as nat
    }
}

/// The sign field of a binary64 pattern: 1 for a negative number.
pub open spec fn double_sign(bits: u64) -> nat {
    (bits / DOUBLE_SIGN_UNIT) as nat
}

/// The exponent field of a binary64 pattern.
pub open spec fn double_exponent(bits: u64) -> nat {
    ((bits / DOUBLE_EXPONENT_UNIT) % 0x800) as nat
}

/// The fraction field of a binary64 pattern.
pub open spec fn double_fraction(bits: u64) -> nat {
    (bits % DOUBLE_EXPONENT_UNIT) as nat
}

/// Whether a binary64 pattern stands for a number, zero included.
pub open spec fn double_is_finite(bits: u64) -> bool {
    double_exponent(bits) != DOUBLE_EXPONENT_TOP
}

/// Whether a binary64 pattern stands for an infinity.
pub open spec fn double_is_infinite(bits: u64) -> bool {
    double_exponent(bits) == DOUBLE_EXPONENT_TOP && double_fraction(bits) == 0
}

/// Whether a binary64 pattern is a NaN.
pub open spec fn double_is_nan(bits: u64) -> bool {
    double_exponent(bits) == DOUBLE_EXPONENT_TOP && double_fraction(bits) != 0
}

/// The absolute value of a finite binary64 pattern, counted in units of
/// 2^-1074, the smallest positive binary64 number.
pub open spec fn double_magnitude(bits: u64) -> nat {
    if double_exponent(bits) == 0 {
        double_fraction(bits)
    } else {
        ((DOUBLE_EXPONENT_UNIT + double_fraction(bits)) * pow2(
            (double_exponent(bits) - 1) as nat,
        )) as nat
    }
}

/// The binary64 pattern with the given fields.
pub open spec fn double_bits(sign: nat, exponent: nat, fraction: nat) -> nat {
    (sign * DOUBLE_SIGN_UNIT + exponent * DOUBLE_EXPONENT_UNIT + fraction) as nat
}

/// How many times a subnormal binary32 fraction must be doubled until its
/// leading bit stands where the implicit bit of a normal significand is.
pub open spec fn normalizing_shift(fraction: nat) -> nat
    decreases 2 * SINGLE_EXPONENT_UNIT - fraction,
{
    if 0 < fraction < SINGLE_EXPONENT_UNIT {
        1 + normalizing_shift(2 * fraction)
    } else {
        0
    }
}

/// The exponent field of the binary64 pattern that a binary32 pattern
/// widens to.
pub open spec fn widened_exponent(bits: u32) -> nat {
    let exponent = single_exponent(bits);
    let fraction = single_fraction(bits);
    if exponent == SINGLE_EXPONENT_TOP {
        DOUBLE_EXPONENT_TOP as nat
    } else if exponent != 0 {
        (exponent + BIAS_GAIN) as nat
    } else if fraction != 0 {
        (BIAS_GAIN + 1 - normalizing_shift(fraction)) as nat
    } else {
        0
    }
}

/// The fraction field of the binary64 pattern that a binary32 pattern
/// widens to. A NaN keeps its payload and becomes quiet.
pub open spec fn widened_fraction(bits: u32) -> nat {
    let exponent = single_exponent(bits);
    let fraction = single_fraction(bits);
    if exponent == SINGLE_EXPONENT_TOP {
        if fraction == 0 || fraction >= SINGLE_EXPONENT_UNIT / 2 {
            (fraction * FRACTION_GAIN) as nat
        } else {
            (fraction * FRACTION_GAIN + DOUBLE_QUIET_UNIT) as nat
        }
    } else if exponent != 0 || fraction == 0 {
        (fraction * FRACTION_GAIN) as nat
    } else {
        ((fraction * pow2(normalizing_shift(fraction)) - SINGLE_EXPONENT_UNIT) * FRACTION_GAIN) as nat
    }
}

/// The binary64 pattern that a binary32 pattern widens to.
pub open spec fn widened(bits: u32) -> u64 {
    double_bits(single_sign(bits), widened_exponent(bits), widened_fraction(bits)) as u64
}

/// Doubling a subnormal fraction `normalizing_shift` times brings it into
/// the range of a normal significand.
pub proof fn lemma_normalizing_shift(fraction: nat)
    requires
        0 < fraction < 2 * SINGLE_EXPONENT_UNIT,
    ensures
        normalizing_shift(fraction) <= 23,
        SINGLE_EXPONENT_UNIT <= fraction * pow2(normalizing_shift(fraction)) < 2
            * SINGLE_EXPONENT_UNIT,
    decreases 2 * SINGLE_EXPONENT_UNIT - fraction,
{
    lemma2_to64();
    if fraction < SINGLE_EXPONENT_UNIT {
        let rest = normalizing_shift(2 * fraction);
        lemma_normalizing_shift(2 * fraction);
        lemma_pow2_unfold(rest + 1);
        assert(fraction * pow2(rest + 1) == (2 * fraction) * pow2(rest)) by (nonlinear_arith)
            requires
                pow2(rest + 1) == 2 * pow2(rest),
        ;
        assert(pow2(rest + 1) <= fraction * pow2(rest + 1)) by (nonlinear_arith)
            requires
                fraction >= 1,
        ;
        if rest + 1 > 24 {
            lemma_pow2_strictly_increases(24, rest + 1);
        }
    }
}

/// The fields of the widened pattern are the widened fields: each fits
/// its place in the binary64 layout.
pub proof fn lemma_widened_fields(bits: u32)
    ensures
        double_sign(widened(bits)) == single_sign(bits),
        double_exponent(widened(bits)) == widened_exponent(bits),
        double_fraction(widened(bits)) == widened_fraction(bits),
{
    let sign = single_sign(bits);
    let exponent = widened_exponent(bits);
    let fraction = widened_fraction(bits);
    assert(sign <= 1);
    assert(exponent <= DOUBLE_EXPONENT_TOP && fraction < DOUBLE_EXPONENT_UNIT) by {
        if single_exponent(bits) == 0 && single_fraction(bits) != 0 {
            lemma_normalizing_shift(single_fraction(bits));
        }
    }
    let whole = double_bits(sign, exponent, fraction);
    assert(whole <= u64::MAX);
    assert(whole / (DOUBLE_EXPONENT_UNIT as nat) == sign * 0x800 + exponent);
}

/// Widening loses nothing: the widened pattern has the same sign, and a
/// number widens to the same number, an infinity to an infinity and a NaN
/// to a NaN. The units of the two magnitudes differ by 2^(1074 - 149).
pub proof fn lemma_widening_is_exact(bits: u32)
    ensures
        double_sign(widened(bits)) == single_sign(bits),
        single_is_finite(bits) ==> double_is_finite(widened(bits)) && double_magnitude(
            widened(bits),
        ) == single_magnitude(bits) * pow2(925),
        single_is_infinite(bits) ==> double_is_infinite(widened(bits)),
        single_is_nan(bits) ==> double_is_nan(widened(bits)),
{
    lemma_widened_fields(bits);
    lemma2_to64();
    let exponent = single_exponent(bits);
    let fraction = single_fraction(bits);
    if exponent == SINGLE_EXPONENT_TOP {
    } else if exponent != 0 {
        let low = (exponent - 1) as nat;
        lemma_pow2_adds(low, 925);
        lemma_pow2_adds(29, low + 896);
        assert((DOUBLE_EXPONENT_UNIT + fraction * FRACTION_GAIN) * pow2(low + 896) == (
        SINGLE_EXPONENT_UNIT + fraction) * pow2(low) * pow2(925)) by (nonlinear_arith)
            requires
                DOUBLE_EXPONENT_UNIT == SINGLE_EXPONENT_UNIT * FRACTION_GAIN,
                pow2(low + 925) == pow2(low) * pow2(925),
                pow2(low + 925) == FRACTION_GAIN * pow2(low + 896),
        ;
    } else if fraction != 0 {
        let shift = normalizing_shift(fraction);
        lemma_normalizing_shift(fraction);
        let scaled = fraction * pow2(shift);
        let low = (896 - shift) as nat;
        lemma_pow2_adds(29, low);
        lemma_pow2_adds(shift, low + 29);
        assert((DOUBLE_EXPONENT_UNIT + (scaled - SINGLE_EXPONENT_UNIT) * FRACTION_GAIN) * pow2(low)
            == fraction * pow2(925)) by (nonlinear_arith)
            requires
                DOUBLE_EXPONENT_UNIT == SINGLE_EXPONENT_UNIT * FRACTION_GAIN,
                scaled == fraction * pow2(shift),
                pow2(low + 29) == FRACTION_GAIN * pow2(low),
                pow2(925) == pow2(shift) * pow2(low + 29),
        ;
    }
}

/// Widens a binary32 pattern to the binary64 pattern of the same value.
pub fn widen(bits: u32) -> (wide: u64)
    ensures
        wide == widened(bits),
{
    let sign: u32 = bits / SINGLE_SIGN_UNIT;
    let field: u32 = (bits / SINGLE_EXPONENT_UNIT) % 0x100;
    let exponent: u64 = field as u64;
    let fraction: u64 = (bits % SINGLE_EXPONENT_UNIT) as u64;
    let high: u64 = (sign as u64) * DOUBLE_SIGN_UNIT;
    if field == SINGLE_EXPONENT_TOP {
        let quiet: u64 = if fraction == 0 || fraction >= 0x40_0000 {
            0
        } else {
            DOUBLE_QUIET_UNIT
        };
        high + DOUBLE_EXPONENT_TOP * DOUBLE_EXPONENT_UNIT + fraction * FRACTION_GAIN + quiet
    } else if exponent != 0 {
        high + (exponent + BIAS_GAIN) * DOUBLE_EXPONENT_UNIT + fraction * FRACTION_GAIN
    } else if fraction != 0 {
        let mut scaled: u64 = fraction;
        let mut shift: u64 = 0;
        proof {
            lemma2_to64();
            lemma_normalizing_shift(fraction as nat);
        }
        while scaled < 0x80_0000
            invariant
                0 < scaled < 0x100_0000,
                scaled == fraction * pow2(shift as nat),
                normalizing_shift(fraction as nat) == shift + normalizing_shift(scaled as nat),
                normalizing_shift(fraction as nat) <= 23,
            decreases 0x100_0000 - scaled,
        {
            proof {
                lemma_pow2_unfold((shift + 1) as nat);
                assert(fraction * pow2((shift + 1) as nat) == 2 * (fraction * pow2(shift as nat)))
                    by (nonlinear_arith)
                    requires
                        pow2((shift + 1) as nat) == 2 * pow2(shift as nat),
                ;
            }
            scaled = scaled * 2;
            shift = shift + 1;
        }
        high + (BIAS_GAIN + 1 - shift) * DOUBLE_EXPONENT_UNIT + (scaled - 0x80_0000)
            * FRACTION_GAIN
    } else {
        high
    }
}

} // verus!
