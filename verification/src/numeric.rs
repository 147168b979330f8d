//! Exact fixed-point unit conversions. Physical sizes are carried as
//! hundredths of a centimeter, percentages as hundredths of a
//! percent, and resolutions as rationals, so every conversion is an
//! integer rounding division with no floating point anywhere.

use vstd::prelude::*;
use vstd::arithmetic::div_mod::lemma_div_basics;
use vstd::arithmetic::div_mod::lemma_div_is_ordered;
use vstd::arithmetic::div_mod::lemma_div_is_ordered_by_denominator;
use vstd::arithmetic::div_mod::lemma_fundamental_div_mod;
use vstd::arithmetic::div_mod::lemma_fundamental_div_mod_converse;
use crate::dpi::Dpi;

verus! {

/// Largest pixel dimension the compiler accepts.
pub const PX_MAX: u64 = 1_000_000_000_000;

/// Largest physical length accepted, in hundredths of a centimeter.
pub const CM_CENTI_MAX: u32 = 1_000_000;

/// Percentages are carried in hundredths of a percent; a full 100%
/// is 10000.
pub const PCT_CENTI_FULL: u32 = 10_000;

/// `a / b` rounded to the nearest integer, halves away from zero;
/// meaningful for `a >= 0`, `b >= 1`.
pub open spec fn round_div(a: int, b: int) -> int {
    (2 * a + b) / (2 * b)
}

/// Rounding is monotone in the numerator.
pub proof fn lemma_round_div_ordered(a1: int, a2: int, b: int)
    requires
        0 <= a1 <= a2,
        1 <= b,
    ensures
        round_div(a1, b) <= round_div(a2, b),
{
    lemma_div_is_ordered(2 * a1 + b, 2 * a2 + b, 2 * b);
}

/// Rounding sits between the quotient's floor and the floor plus one.
pub proof fn lemma_round_div_bounds(a: int, b: int)
    requires
        0 <= a,
        1 <= b,
    ensures
        a / b <= round_div(a, b) <= a / b + 1,
        round_div(a, b) <= a + 1,
{
    let q = a / b;
    let r = a % b;
    lemma_fundamental_div_mod(a, b);
    assert(2 * a + b == q * (2 * b) + (2 * r + b)) by (nonlinear_arith)
        requires
            a == b * q + r,
    ;
    if 2 * r + b < 2 * b {
        lemma_fundamental_div_mod_converse(2 * a + b, 2 * b, q, 2 * r + b);
    } else {
        assert(2 * a + b == (q + 1) * (2 * b) + (2 * r + b - 2 * b)) by (nonlinear_arith)
            requires
                2 * a + b == q * (2 * b) + (2 * r + b),
        ;
        lemma_fundamental_div_mod_converse(2 * a + b, 2 * b, q + 1, 2 * r + b - 2 * b);
    }
    lemma_div_is_ordered_by_denominator(a, 1, b);
    lemma_div_basics(a);
}

/// If `a` is at least `q` times `b`, it rounds to at least `q`.
pub proof fn lemma_round_div_at_least(a: int, b: int, q: int)
    requires
        1 <= b,
        0 <= q,
        q * b <= a,
    ensures
        round_div(a, b) >= q,
{
    assert(0 <= q * b) by (nonlinear_arith)
        requires
            0 <= q,
            1 <= b,
    ;
    lemma_round_div_ordered(q * b, a, b);
    lemma_round_div_exact(q, b);
}

/// If `a` is at most `q` times `b`, it rounds to at most `q`.
pub proof fn lemma_round_div_at_most(a: int, b: int, q: int)
    requires
        1 <= b,
        0 <= a,
        a <= q * b,
    ensures
        round_div(a, b) <= q,
{
    assert(q >= 0) by (nonlinear_arith)
        requires
            0 <= a,
            a <= q * b,
            1 <= b,
    ;
    lemma_round_div_ordered(a, q * b, b);
    lemma_round_div_exact(q, b);
}

/// An exact multiple rounds to itself.
pub proof fn lemma_round_div_exact(k: int, b: int)
    requires
        0 <= k,
        1 <= b,
    ensures
        round_div(k * b, b) == k,
{
    assert((2 * (k * b) + b) / (2 * b) == k) by (nonlinear_arith)
        requires
            0 <= k,
            1 <= b,
    ;
}

fn round_div_u128(a: u128, b: u128) -> (r: u128)
    requires
        1 <= b,
        a <= u128::MAX / 4,
        b <= u128::MAX / 4,
    ensures
        r == round_div(a as int, b as int),
{
    (2 * a + b) / (2 * b)
}

/// Convert a physical length in hundredths of a centimeter to whole
/// pixels at the given resolution: `round(cm / 2.54 * dpi)`.
pub open spec fn spec_cm_to_px(cm_centi: int, dpi: Dpi) -> int {
    round_div(cm_centi * dpi.num, 254 * dpi.den)
}

pub fn cm_to_px(cm_centi: u32, dpi: Dpi) -> (r: u64)
    requires
        dpi.wf(),
        cm_centi <= CM_CENTI_MAX,
    ensures
        r == spec_cm_to_px(cm_centi as int, dpi),
        r <= 0x4000_0000_0000_0000,
{
    proof {
        assert(cm_centi * dpi.num <= 1_000_000_000_000_000_000_000) by (nonlinear_arith)
            requires
                0 <= cm_centi <= 1_000_000,
                0 <= dpi.num <= 1_000_000_000_000_000,
        ;
    }
    let a: u128 = (cm_centi as u128) * (dpi.num as u128);
    let b: u128 = 254 * (dpi.den as u128);
    let r = round_div_u128(a, b);
    proof {
        lemma_div_is_ordered_by_denominator(2 * a + b, 508int, 2 * b as int);
        lemma_div_is_ordered(2 * a + b, 2_100_000_000_000_000_000_000int, 508int);
    }
    r as u64
}

/// Signed variant for border insets: a negative length converts to a
/// negative pixel count of the same magnitude.
pub open spec fn spec_cm_to_px_signed(cm_centi: int, dpi: Dpi) -> int {
    if cm_centi >= 0 {
        spec_cm_to_px(cm_centi, dpi)
    } else {
        -spec_cm_to_px(-cm_centi, dpi)
    }
}

pub fn cm_to_px_signed(cm_centi: i32, dpi: Dpi) -> (r: i64)
    requires
        dpi.wf(),
        -(CM_CENTI_MAX as int) <= cm_centi <= CM_CENTI_MAX,
    ensures
        r == spec_cm_to_px_signed(cm_centi as int, dpi),
        -0x4000_0000_0000_0000 <= r <= 0x4000_0000_0000_0000,
{
    if cm_centi >= 0 {
        cm_to_px(cm_centi as u32, dpi) as i64
    } else {
        let m = cm_to_px((-cm_centi) as u32, dpi);
        -(m as i64)
    }
}

/// Target canvas size: physical centimeters at the fixed output
/// resolution of 300 pixels per inch.
pub open spec fn spec_target_px(cm_centi: int) -> int {
    round_div(cm_centi * 300, 254)
}

pub fn target_px(cm_centi: u32) -> (r: u64)
    requires
        cm_centi <= CM_CENTI_MAX,
    ensures
        r == spec_target_px(cm_centi as int),
        r <= 1_200_000,
{
    let a: u64 = (cm_centi as u64) * 300;
    let r = (2 * a + 254) / 508;
    proof {
        lemma_div_is_ordered(2 * a + 254, 600_000_254int, 508int);
    }
    r
}

/// Convert a percentage (hundredths of a percent) of a pixel
/// dimension to whole pixels.
pub open spec fn spec_pct_to_px(pct_centi: int, dim: int) -> int {
    round_div(pct_centi * dim, 10000)
}

pub fn pct_to_px(pct_centi: u32, dim: u64) -> (r: u64)
    requires
        pct_centi <= PCT_CENTI_FULL,
        dim <= PX_MAX,
    ensures
        r == spec_pct_to_px(pct_centi as int, dim as int),
        r <= dim,
{
    proof {
        assert(pct_centi * dim <= 10000 * dim <= 10000 * 1_000_000_000_000) by (nonlinear_arith)
            requires
                0 <= pct_centi <= 10000,
                0 <= dim <= 1_000_000_000_000,
        ;
    }
    let a: u128 = (pct_centi as u128) * (dim as u128);
    let r = round_div_u128(a, 10000);
    proof {
        lemma_round_div_ordered(a as int, 10000 * dim, 10000);
        lemma_round_div_exact(dim as int, 10000);
    }
    r as u64
}

/// A pixel dimension expressed in tenths of a centimeter at the
/// given resolution: `round(px / dpi * 2.54 * 10)`.
pub open spec fn spec_px_to_cm_tenths(px: int, dpi: Dpi) -> int {
    round_div(px * 254 * dpi.den, 10 * dpi.num)
}

pub fn px_to_cm_tenths(px: u64, dpi: Dpi) -> (r: u128)
    requires
        dpi.wf(),
        px <= PX_MAX,
    ensures
        r == spec_px_to_cm_tenths(px as int, dpi),
{
    proof {
        assert(px * 254 * dpi.den <= 254_000_000_000_000_000_000_000_000_000) by (
        nonlinear_arith)
            requires
                0 <= px <= 1_000_000_000_000,
                0 <= dpi.den <= 1_000_000_000_000,
        ;
    }
    let a: u128 = (px as u128) * 254 * (dpi.den as u128);
    let b: u128 = 10 * (dpi.num as u128);
    round_div_u128(a, b)
}

} // verus!
