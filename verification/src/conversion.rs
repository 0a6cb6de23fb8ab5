//! Pure codec between physical quantities and on-wire register bytes.
//!
//! Temperatures are carried as signed integer counts of 1/256 °C. The
//! two-byte temperature register holds the integer part of the Celsius
//! value in the most-significant byte (8-bit two's complement) and the
//! fractional part left-justified in the least-significant byte, so one
//! count of the least-significant byte is exactly 1/256 °C and every
//! register value is represented exactly.

use vstd::prelude::*;
use vstd::arithmetic::div_mod::lemma_fundamental_div_mod;
use vstd::arithmetic::div_mod::lemma_hoist_over_denominator;
use vstd::arithmetic::div_mod::lemma_mod_division_less_than_divisor;
use vstd::arithmetic::div_mod::lemma_mod_multiples_basic;
use vstd::arithmetic::div_mod::lemma_mod_multiples_vanish;

verus! {

/// Lowest accepted temperature, −55 °C, in counts of 1/256 °C.
pub const MIN_TEMP_COUNTS: i16 = -55 * 256;

/// Highest accepted temperature, 125 °C, in counts of 1/256 °C.
pub const MAX_TEMP_COUNTS: i16 = 125 * 256;

/// The resolution masks a device variant may report: the high `k` bits of
/// the fractional byte are significant, for `k` between one (0.5 °C steps)
/// and four (0.0625 °C steps).
pub open spec fn is_resolution_mask(mask: u8) -> bool {
    mask == 0x80u8 || mask == 0xC0u8 || mask == 0xE0u8 || mask == 0xF0u8
}

/// Size of one representable temperature step under `mask`, in counts of
/// 1/256 °C: the place value of the lowest significant fractional bit.
pub open spec fn resolution_step(mask: u8) -> int {
    256 - mask
}

/// The integer a byte denotes when read as 8-bit two's complement.
pub open spec fn signed_of_byte(b: u8) -> int {
    if b < 128 {
        b as int
    } else {
        b as int - 256
    }
}

/// The byte that denotes `v` in 8-bit two's complement.
pub open spec fn byte_of_signed(v: int) -> u8
    recommends
        -128 <= v < 128,
{
    if v >= 0 {
        v as u8
    } else {
        (v + 256) as u8
    }
}

/// The temperature a register byte pair denotes under `mask`, in counts of
/// 1/256 °C: the signed integer part plus the non-negative masked fraction.
pub open spec fn spec_temp_from_register(msb: u8, lsb: u8, mask: u8) -> int {
    signed_of_byte(msb) * 256 + (lsb & mask)
}

/// `t` rounded to the nearest multiple of `step`, half-steps rounding up.
pub open spec fn round_to_step(t: int, step: int) -> int
    recommends
        0 < step,
{
    ((t + step / 2) / step) * step
}

/// Most-significant temperature byte for `t` counts at resolution `mask`:
/// the integer Celsius part, after rounding, as two's complement.
pub open spec fn spec_temp_msb(t: int, mask: u8) -> u8 {
    byte_of_signed(round_to_step(t, resolution_step(mask)) / 256)
}

/// Least-significant temperature byte for `t` counts at resolution `mask`:
/// the rounded fractional part, left-justified.
pub open spec fn spec_temp_lsb(t: int, mask: u8) -> u8 {
    (round_to_step(t, resolution_step(mask)) % 256) as u8
}

/// Decode a two-byte temperature register under the variant's resolution
/// mask. Total: any byte pair decodes to a defined temperature.
pub fn convert_temp_from_register(msb: u8, lsb: u8, mask: u8) -> (t: i16)
    ensures
        t as int == spec_temp_from_register(msb, lsb, mask),
{
    let fraction: u8 = lsb & mask;
    let whole: i16 = if msb < 128 {
        msb as i16
    } else {
        msb as i16 - 256
    };
    whole * 256 + fraction as i16
}

/// Encode a temperature given in counts of 1/256 °C into the two register
/// bytes, rounding to the nearest step the resolution can represent
/// (half-steps round up). Callers reject out-of-range inputs first.
pub fn convert_temp_to_register(temp: i16, mask: u8) -> (r: (u8, u8))
    requires
        is_resolution_mask(mask),
        MIN_TEMP_COUNTS <= temp <= MAX_TEMP_COUNTS,
    ensures
        r.0 == spec_temp_msb(temp as int, mask),
        r.1 == spec_temp_lsb(temp as int, mask),
{
    let step: u16 = 256 - (mask as u16);
    // Work in a domain shifted up by 55 * 256 counts so that every
    // intermediate quantity is non-negative.
    let shifted: u16 = ((temp as i32) + 14080) as u16;
    let q: u16 = (shifted + step / 2) / step;
    proof {
        lemma_fundamental_div_mod(shifted + step / 2, step as int);
        lemma_mod_division_less_than_divisor(shifted + step / 2, step as int);
        lemma_shifted_encode(temp as int, mask, step as int, shifted as int);
    }
    let rounded: u16 = q * step;
    let whole: u16 = rounded / 256;
    let msb: u8 = if whole >= 55 {
        (whole - 55) as u8
    } else {
        (whole + 201) as u8
    };
    let lsb: u8 = (rounded % 256) as u8;
    (msb, lsb)
}

/// A sample-rate period the device accepts: a whole multiple of 100 ms
/// between 100 and 3100 ms inclusive.
pub open spec fn is_valid_sample_rate(period: u16) -> bool {
    100 <= period <= 3100 && period % 100 == 0
}

/// The sample-rate register byte for `period`: the period in units of
/// 100 ms.
pub open spec fn spec_sample_rate_to_register(period: u16) -> u8 {
    (period / 100) as u8
}

/// The period in milliseconds a sample-rate register byte denotes. Total:
/// bits beyond the writable range still decode deterministically.
pub open spec fn spec_sample_rate_from_register(byte: u8) -> u16 {
    (byte * 100) as u16
}

/// Encode a sample-rate period in milliseconds into the register byte.
/// Callers reject invalid periods first.
pub fn convert_sample_rate_to_register(period: u16) -> (r: u8)
    requires
        is_valid_sample_rate(period),
    ensures
        r == spec_sample_rate_to_register(period),
{
    (period / 100) as u8
}

/// Decode a sample-rate register byte into a period in milliseconds.
pub fn convert_sample_rate_from_register(byte: u8) -> (r: u16)
    ensures
        r == spec_sample_rate_from_register(byte),
{
    (byte as u16) * 100
}

/// Round trip: a temperature exactly representable at resolution `mask`
/// encodes to register bytes that decode back to the same temperature.
pub proof fn lemma_temp_round_trip(t: int, mask: u8)
    requires
        is_resolution_mask(mask),
        MIN_TEMP_COUNTS <= t <= MAX_TEMP_COUNTS,
        t % resolution_step(mask) == 0,
    ensures
        spec_temp_from_register(spec_temp_msb(t, mask), spec_temp_lsb(t, mask), mask) == t,
{
    let step = resolution_step(mask);
    let half = step / 2;

    // Rounding is the identity on exact multiples of the step.
    lemma_fundamental_div_mod(t, step);
    assert(t == step * (t / step));
    vstd::arithmetic::div_mod::lemma_div_multiples_vanish_fancy(t / step, half, step);
    assert((step * (t / step) + half) / step == t / step);
    assert((t / step) * step == step * (t / step)) by (nonlinear_arith);
    assert(round_to_step(t, step) == t);

    let msb = spec_temp_msb(t, mask);
    let lsb = spec_temp_lsb(t, mask);
    lemma_div_bounds_for_byte(t);
    assert(msb == byte_of_signed(t / 256));
    assert(signed_of_byte(msb) == t / 256);

    // The fractional byte of an exact multiple of the step has no bits
    // below the resolution mask, so masking leaves it unchanged.
    lemma_fundamental_div_mod(t, 256);
    lemma_mod_division_less_than_divisor(t, 256);
    let b = t % 256;
    assert(t == 256 * (t / 256) + b);
    let m: int = if step == 16 {
        16
    } else if step == 32 {
        8
    } else if step == 64 {
        4
    } else {
        2
    };
    assert(m * step == 256) by (nonlinear_arith)
        requires
            (step == 16 && m == 16) || (step == 32 && m == 8) || (step == 64 && m == 4) || (step
                == 128 && m == 2),
    ;
    assert(step * (-(m * (t / 256))) + t == b) by (nonlinear_arith)
        requires
            t == 256 * (t / 256) + b,
            m * step == 256,
    ;
    lemma_mod_multiples_vanish(-(m * (t / 256)), t, step);
    assert(b % step == t % step);
    assert(b % step == 0);

    let lb = b as u8;
    assert(lsb == lb);
    if mask == 0x80 {
        assert(lb & 0x80 == lb) by (bit_vector)
            requires
                lb % 128 == 0,
        ;
    } else if mask == 0xC0 {
        assert(lb & 0xC0 == lb) by (bit_vector)
            requires
                lb % 64 == 0,
        ;
    } else if mask == 0xE0 {
        assert(lb & 0xE0 == lb) by (bit_vector)
            requires
                lb % 32 == 0,
        ;
    } else {
        assert(lb & 0xF0 == lb) by (bit_vector)
            requires
                lb % 16 == 0,
        ;
    }
    assert(lsb & mask == lsb);
    assert(spec_temp_from_register(msb, lsb, mask) == (t / 256) * 256 + b);
    assert((t / 256) * 256 == 256 * (t / 256)) by (nonlinear_arith);
}

/// The shift by 55 * 256 counts commutes with rounding and with splitting
/// into bytes, because 55 * 256 is a multiple of every resolution step.
proof fn lemma_shifted_encode(t: int, mask: u8, step: int, shifted: int)
    requires
        is_resolution_mask(mask),
        step == resolution_step(mask),
        shifted == t + 14080,
        -14080 <= t <= 32000,
    ensures
        ((shifted + step / 2) / step) * step == round_to_step(t, step) + 14080,
        (round_to_step(t, step) + 14080) / 256 == round_to_step(t, step) / 256 + 55,
        (round_to_step(t, step) + 14080) % 256 == round_to_step(t, step) % 256,
        -14080 <= round_to_step(t, step) <= 32000,
        -55 <= round_to_step(t, step) / 256 <= 125,
        byte_of_signed(round_to_step(t, step) / 256) == (
            if round_to_step(t, step) / 256 >= 0 {
                (round_to_step(t, step) / 256) as u8
            } else {
                (round_to_step(t, step) / 256 + 256) as u8
            }
        ),
{
    let half = step / 2;
    // 14080 is a multiple of every resolution step.
    let k: int = if step == 16 {
        880
    } else if step == 32 {
        440
    } else if step == 64 {
        220
    } else {
        110
    };
    assert(k * step == 14080) by (nonlinear_arith)
        requires
            (step == 16 && k == 880) || (step == 32 && k == 440) || (step == 64 && k == 220) || (
            step == 128 && k == 110),
    ;
    lemma_hoist_over_denominator(t + half, k, step as nat);
    assert((t + half) / step + k == (t + half + k * step) / step);
    assert(shifted + half == t + half + k * step);
    let q0 = (t + half) / step;
    assert((shifted + half) / step == q0 + k);
    assert((q0 + k) * step == q0 * step + k * step) by (nonlinear_arith);
    assert(((shifted + half) / step) * step == round_to_step(t, step) + 14080);

    lemma_round_to_step_bounds(t, step);
    let r = round_to_step(t, step);

    lemma_hoist_over_denominator(r, 55, 256nat);
    assert(r / 256 + 55 == (r + 55 * 256) / 256);
    assert((r + 14080) / 256 == r / 256 + 55);
    lemma_mod_multiples_vanish(55, r, 256);
    assert((256 * 55 + r) % 256 == r % 256);
    assert(256 * 55 + r == r + 14080);

    lemma_div_bounds_for_byte(r);
}

/// Rounding to a step that divides both range endpoints keeps a value of
/// [−14080, 32000] inside that range.
proof fn lemma_round_to_step_bounds(t: int, step: int)
    requires
        step == 16 || step == 32 || step == 64 || step == 128,
        -14080 <= t <= 32000,
    ensures
        -14080 <= round_to_step(t, step) <= 32000,
        round_to_step(t, step) % step == 0,
{
    let half = step / 2;
    let q = (t + half) / step;
    lemma_fundamental_div_mod(t + half, step);
    lemma_mod_division_less_than_divisor(t + half, step);
    assert(t + half == step * q + (t + half) % step);
    assert(step * q <= t + half);
    assert(step * q > t + half - step);

    // The endpoints are the multiples c1 * step and c2 * step.
    let c1: int = if step == 16 {
        -880
    } else if step == 32 {
        -440
    } else if step == 64 {
        -220
    } else {
        -110
    };
    let c2: int = if step == 16 {
        2000
    } else if step == 32 {
        1000
    } else if step == 64 {
        500
    } else {
        250
    };
    assert(c1 * step == -14080 && c2 * step == 32000) by (nonlinear_arith)
        requires
            (step == 16 && c1 == -880 && c2 == 2000) || (step == 32 && c1 == -440 && c2 == 1000)
                || (step == 64 && c1 == -220 && c2 == 500) || (step == 128 && c1 == -110 && c2
                == 250),
    ;

    // step * q > −14080 − step = (c1 − 1) * step, so q ≥ c1.
    assert(step * q > t - step >= -14080 - step);
    assert(q >= c1) by (nonlinear_arith)
        requires
            step > 0,
            step * q > c1 * step - step,
    ;
    // step * q ≤ 32000 + half < (c2 + 1) * step, so q ≤ c2.
    assert(step * q <= t + half <= 32000 + half);
    assert(q <= c2) by (nonlinear_arith)
        requires
            step > 0,
            half < step,
            step * q <= c2 * step + half,
    ;
    assert(c1 * step <= q * step <= c2 * step) by (nonlinear_arith)
        requires
            step > 0,
            c1 <= q <= c2,
    ;
    assert(round_to_step(t, step) == q * step);
    lemma_mod_multiples_basic(q, step);
}

/// For a value of [−14080, 32000], the quotient by 256 lies in [−55, 125],
/// so it fits an 8-bit two's-complement byte.
proof fn lemma_div_bounds_for_byte(r: int)
    requires
        -14080 <= r <= 32000,
    ensures
        -55 <= r / 256 <= 125,
        byte_of_signed(r / 256) == (
            if r / 256 >= 0 {
                (r / 256) as u8
            } else {
                (r / 256 + 256) as u8
            }
        ),
{
    vstd::arithmetic::div_mod::lemma_div_is_ordered(-14080, r, 256);
    vstd::arithmetic::div_mod::lemma_div_is_ordered(r, 32000, 256);
    assert(-14080int / 256 == -55);
    assert(32000int / 256 == 125);
}

} // verus!

