//! Fixed-point normalization shared by the sensor conversions.
//!
//! Raw sensor samples and their calibration bounds do not always carry the
//! same bit width; the narrower side is shifted up until both sides agree,
//! and the sample is then expressed relative to the calibrated zero and
//! full-scale points.  The result is returned as an exact integer ratio;
//! the division into a physical unit is left to the caller.

use vstd::arithmetic::power2::{lemma2_to64, lemma_pow2_strictly_increases, pow2};
use vstd::bits::lemma_u32_shl_is_mul;
use vstd::prelude::*;

verus! {

/// How many bits the side described by `b` lacks against the side
/// described by `a`.
pub open spec fn spec_missing_bits(a: nat, b: nat) -> nat {
    if a > b {
        (a - b) as nat
    } else {
        0
    }
}

/// Numerator of the normalized ratio: the aligned sample minus the aligned
/// zero point.
pub open spec fn spec_normalized_num(value: u16, value_bits: nat, zero: u16, calibration_bits: nat) -> int {
    value * pow2(spec_missing_bits(calibration_bits, value_bits)) - zero * pow2(
        spec_missing_bits(value_bits, calibration_bits),
    )
}

/// Denominator of the normalized ratio: the aligned full-scale point minus
/// the aligned zero point.
pub open spec fn spec_normalized_den(zero: u16, max: u16, value_bits: nat, calibration_bits: nat) -> int {
    max * pow2(spec_missing_bits(value_bits, calibration_bits)) - zero * pow2(
        spec_missing_bits(value_bits, calibration_bits),
    )
}

/// Expresses `value` relative to the calibration points `zero` and `max`:
/// the value operates at `value_bits` bits, the calibration points at
/// `calibration_bits` bits, and the narrower side is shifted up so both
/// sides agree before the subtraction.
///
/// Returns the exact ratio `(value - zero) / (max - zero)` over the aligned
/// operands as a numerator/denominator pair.  The caller is responsible for
/// the widths describing the data and for `max != zero`; with `max == zero`
/// the denominator is zero and no ratio is defined.
pub fn normalize(value: u16, value_bits: usize, zero: u16, max: u16, calibration_bits: usize) -> (r: (
    i64,
    i64,
))
    requires
        value_bits <= 16,
        calibration_bits <= 16,
    ensures
        r.0 == spec_normalized_num(value, value_bits as nat, zero, calibration_bits as nat),
        r.1 == spec_normalized_den(zero, max, value_bits as nat, calibration_bits as nat),
        -0x1_0000_0000 < r.0 < 0x1_0000_0000,
        -0x1_0000_0000 < r.1 < 0x1_0000_0000,
{
    let missing_calibration_bits: usize = if value_bits > calibration_bits {
        value_bits - calibration_bits
    } else {
        0
    };
    let missing_value_bits: usize = if calibration_bits > value_bits {
        calibration_bits - value_bits
    } else {
        0
    };
    proof {
        lemma2_to64();
        lemma_pow2_bound(missing_value_bits as nat);
        lemma_pow2_bound(missing_calibration_bits as nat);
        assert(value * pow2(missing_value_bits as nat) <= 0xFFFF * 0x10000) by (nonlinear_arith)
            requires
                value <= 0xFFFF,
                pow2(missing_value_bits as nat) <= 0x10000,
        ;
        assert(zero * pow2(missing_calibration_bits as nat) <= 0xFFFF * 0x10000)
            by (nonlinear_arith)
            requires
                zero <= 0xFFFF,
                pow2(missing_calibration_bits as nat) <= 0x10000,
        ;
        assert(max * pow2(missing_calibration_bits as nat) <= 0xFFFF * 0x10000)
            by (nonlinear_arith)
            requires
                max <= 0xFFFF,
                pow2(missing_calibration_bits as nat) <= 0x10000,
        ;
        lemma_u32_shl_is_mul(value as u32, missing_value_bits as u32);
        lemma_u32_shl_is_mul(zero as u32, missing_calibration_bits as u32);
        lemma_u32_shl_is_mul(max as u32, missing_calibration_bits as u32);
    }
    let shifted_value: u32 = (value as u32) << (missing_value_bits as u32);
    let shifted_zero: u32 = (zero as u32) << (missing_calibration_bits as u32);
    let shifted_max: u32 = (max as u32) << (missing_calibration_bits as u32);
    ((shifted_value as i64) - (shifted_zero as i64), (shifted_max as i64) - (shifted_zero as i64))
}

/// With at most 16 missing bits the scale factor stays within one shift of
/// a 16-bit word.
proof fn lemma_pow2_bound(e: nat)
    requires
        e <= 16,
    ensures
        pow2(e) <= 0x10000,
{
    lemma2_to64();
    if e < 16 {
        lemma_pow2_strictly_increases(e, 16);
    }
}

/// The normalized ratio hits its reference points exactly: when the value
/// and calibration widths agree, a sample equal to the full-scale point
/// yields a ratio of exactly one (numerator equal to denominator), and a
/// sample equal to the zero point yields a ratio of exactly zero.
pub proof fn lemma_normalize_reference_points(bits: nat, zero: u16, max: u16)
    ensures
        spec_normalized_num(max, bits, zero, bits) == spec_normalized_den(zero, max, bits, bits),
        spec_normalized_num(zero, bits, zero, bits) == 0,
{
}

} // verus!
