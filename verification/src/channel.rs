//! The three colour channels of one pixel, from its luma sample and the
//! chroma pair it shares with its neighbour.
//!
//! With `cb` and `cr` the chroma samples centred on 128, the channels are
//!
//! ```text
//! red   = luma + 1402/1000 * cr
//! green = luma - 344136/1000000 * cb - 714136/1000000 * cr
//! blue  = luma + 1772/1000 * cb
//! ```
//!
//! evaluated left to right in single precision, each coefficient being the
//! single-precision value nearest to the fraction shown. The result is
//! truncated toward zero and reduced to eight bits by wrapping: a channel
//! that leaves `0..=255` is not clamped.

use vstd::prelude::*;
use crate::binary32::{
    lemma_multiple_of_spacing_is_exact, lemma_round_error, lemma_spacing_steps, round_single,
    round_units, spacing, truncate_to_byte, whole_part, wrap_byte, UNITS_PER_ONE,
};

verus! {

/// The single-precision value nearest to 1402/1000, in units of 2^-25.
pub const RED_FROM_CR: i64 = 47_043_312;

/// The single-precision value nearest to 344136/1000000, in units of 2^-25.
pub const GREEN_FROM_CB: i64 = 11_547_288;

/// The single-precision value nearest to 714136/1000000, in units of 2^-25.
pub const GREEN_FROM_CR: i64 = 23_962_428;

/// The single-precision value nearest to 1772/1000, in units of 2^-25.
pub const BLUE_FROM_CB: i64 = 59_458_452;

/// A luma sample as a count of units.
pub open spec fn luma_units(luma: u8) -> int {
    luma * UNITS_PER_ONE
}

/// A chroma sample with its bias of 128 removed.
pub open spec fn centred(chroma: u8) -> int {
    chroma - 128
}

/// Red before truncation, in units.
pub open spec fn red_units(luma: u8, cr: u8) -> int {
    round_single(luma_units(luma) + round_single(RED_FROM_CR * centred(cr)))
}

/// Green before truncation, in units.
pub open spec fn green_units(luma: u8, cb: u8, cr: u8) -> int {
    round_single(
        round_single(luma_units(luma) - round_single(GREEN_FROM_CB * centred(cb))) - round_single(
            GREEN_FROM_CR * centred(cr),
        ),
    )
}

/// Blue before truncation, in units.
pub open spec fn blue_units(luma: u8, cb: u8) -> int {
    round_single(luma_units(luma) + round_single(BLUE_FROM_CB * centred(cb)))
}

/// The red channel of a pixel.
pub open spec fn red(luma: u8, cr: u8) -> u8 {
    wrap_byte(whole_part(red_units(luma, cr)))
}

/// The green channel of a pixel.
pub open spec fn green(luma: u8, cb: u8, cr: u8) -> u8 {
    wrap_byte(whole_part(green_units(luma, cb, cr)))
}

/// The blue channel of a pixel.
pub open spec fn blue(luma: u8, cb: u8) -> u8 {
    wrap_byte(whole_part(blue_units(luma, cb)))
}

/// Channel `index` (0 red, 1 green, 2 blue) of a pixel.
pub open spec fn channel(index: int, luma: u8, cb: u8, cr: u8) -> u8 {
    if index == 0 {
        red(luma, cr)
    } else if index == 1 {
        green(luma, cb, cr)
    } else {
        blue(luma, cb)
    }
}

/// Computes the red channel of a pixel.
pub fn red_channel(luma: u8, cr: u8) -> (value: u8)
    ensures
        value == red(luma, cr),
{
    let chroma: i64 = round_units(RED_FROM_CR * (cr as i64 - 128));
    let sum: i64 = round_units(luma as i64 * UNITS_PER_ONE + chroma);
    truncate_to_byte(sum)
}

/// Computes the green channel of a pixel.
pub fn green_channel(luma: u8, cb: u8, cr: u8) -> (value: u8)
    ensures
        value == green(luma, cb, cr),
{
    let from_cb: i64 = round_units(GREEN_FROM_CB * (cb as i64 - 128));
    let partial: i64 = round_units(luma as i64 * UNITS_PER_ONE - from_cb);
    let from_cr: i64 = round_units(GREEN_FROM_CR * (cr as i64 - 128));
    let sum: i64 = round_units(partial - from_cr);
    truncate_to_byte(sum)
}

/// Computes the blue channel of a pixel.
pub fn blue_channel(luma: u8, cb: u8) -> (value: u8)
    ensures
        value == blue(luma, cb),
{
    let chroma: i64 = round_units(BLUE_FROM_CB * (cb as i64 - 128));
    let sum: i64 = round_units(luma as i64 * UNITS_PER_ONE + chroma);
    truncate_to_byte(sum)
}

/// A whole number of at most eight bits is representable: rounding leaves it
/// unchanged.
pub proof fn lemma_luma_representable(luma: u8)
    ensures
        round_single(luma_units(luma)) == luma_units(luma),
        whole_part(luma_units(luma)) == luma,
{
    let m = luma_units(luma) as nat;
    lemma_spacing_steps(m);
    lemma_multiple_of_spacing_is_exact(m, spacing(m));
}

/// Neutral chroma gives grey: when both chroma samples are 128, each of the
/// three channels equals the luma sample.
pub proof fn lemma_neutral_chroma_is_grey(luma: u8)
    ensures
        red(luma, 128) == luma,
        green(luma, 128, 128) == luma,
        blue(luma, 128) == luma,
{
    lemma_luma_representable(luma);
    lemma_spacing_steps(0);
    lemma_multiple_of_spacing_is_exact(0, 1);
}

/// Each coefficient is a single-precision value, and no other
/// single-precision value lies nearer to the fraction it stands for: its
/// distance to the fraction is at most half the spacing at its magnitude.
pub proof fn lemma_coefficients_nearest()
    ensures
        round_single(RED_FROM_CR as int) == RED_FROM_CR,
        round_single(GREEN_FROM_CB as int) == GREEN_FROM_CB,
        round_single(GREEN_FROM_CR as int) == GREEN_FROM_CR,
        round_single(BLUE_FROM_CB as int) == BLUE_FROM_CB,
        2 * vstd::math::abs(RED_FROM_CR * 1000 - 1402 * UNITS_PER_ONE) <= 1000 * spacing(
            RED_FROM_CR as nat,
        ),
        2 * vstd::math::abs(GREEN_FROM_CB * 1_000_000 - 344_136 * UNITS_PER_ONE) <= 1_000_000
            * spacing(GREEN_FROM_CB as nat),
        2 * vstd::math::abs(GREEN_FROM_CR * 1_000_000 - 714_136 * UNITS_PER_ONE) <= 1_000_000
            * spacing(GREEN_FROM_CR as nat),
        2 * vstd::math::abs(BLUE_FROM_CB * 1000 - 1772 * UNITS_PER_ONE) <= 1000 * spacing(
            BLUE_FROM_CB as nat,
        ),
{
    lemma_spacing_steps(RED_FROM_CR as nat);
    lemma_spacing_steps(GREEN_FROM_CB as nat);
    lemma_spacing_steps(GREEN_FROM_CR as nat);
    lemma_spacing_steps(BLUE_FROM_CB as nat);
    lemma_multiple_of_spacing_is_exact(RED_FROM_CR as nat, 4);
    lemma_multiple_of_spacing_is_exact(GREEN_FROM_CB as nat, 1);
    lemma_multiple_of_spacing_is_exact(GREEN_FROM_CR as nat, 2);
    lemma_multiple_of_spacing_is_exact(BLUE_FROM_CB as nat, 4);
}

/// Red before truncation lies within 2^-15 of the exact value of
/// `luma + 1402/1000 * (cr - 128)`. Both sides are scaled by 1000.
pub proof fn lemma_red_near_formula(luma: u8, cr: u8)
    ensures
        vstd::math::abs(
            1000 * red_units(luma, cr) - (1000 * luma_units(luma) + 1402 * centred(cr)
                * UNITS_PER_ONE),
        ) <= 1000 * 1024,
{
    let product = RED_FROM_CR * centred(cr);
    lemma_round_error(product);
    lemma_spacing_steps(vstd::math::abs(product) as nat);
    let sum = luma_units(luma) + round_single(product);
    lemma_round_error(sum);
}

/// Blue before truncation lies within 2^-15 of the exact value of
/// `luma + 1772/1000 * (cb - 128)`. Both sides are scaled by 1000.
pub proof fn lemma_blue_near_formula(luma: u8, cb: u8)
    ensures
        vstd::math::abs(
            1000 * blue_units(luma, cb) - (1000 * luma_units(luma) + 1772 * centred(cb)
                * UNITS_PER_ONE),
        ) <= 1000 * 1024,
{
    let product = BLUE_FROM_CB * centred(cb);
    lemma_round_error(product);
    lemma_spacing_steps(vstd::math::abs(product) as nat);
    let sum = luma_units(luma) + round_single(product);
    lemma_round_error(sum);
}

/// The two chroma terms of green are rounded by at most 64 and 128 units.
proof fn lemma_green_terms(cb: u8, cr: u8)
    ensures
        vstd::math::abs(
            round_single(GREEN_FROM_CB * centred(cb)) - GREEN_FROM_CB * centred(cb),
        ) <= 64,
        vstd::math::abs(
            round_single(GREEN_FROM_CR * centred(cr)) - GREEN_FROM_CR * centred(cr),
        ) <= 128,
{
    let from_cb = GREEN_FROM_CB * centred(cb);
    lemma_round_error(from_cb);
    lemma_spacing_steps(vstd::math::abs(from_cb) as nat);
    let from_cr = GREEN_FROM_CR * centred(cr);
    lemma_round_error(from_cr);
    lemma_spacing_steps(vstd::math::abs(from_cr) as nat);
}

/// The sum of four bounded rounding errors and two coefficient errors.
proof fn lemma_green_errors_add_up(
    luma: int,
    cb: int,
    cr: int,
    from_cb: int,
    partial: int,
    from_cr: int,
    sum: int,
)
    requires
        -128 <= cb <= 127,
        -128 <= cr <= 127,
        vstd::math::abs(from_cb - GREEN_FROM_CB * cb) <= 64,
        vstd::math::abs(partial - (luma - from_cb)) <= 512,
        vstd::math::abs(from_cr - GREEN_FROM_CR * cr) <= 128,
        vstd::math::abs(sum - (partial - from_cr)) <= 512,
    ensures
        vstd::math::abs(
            1_000_000 * sum - (1_000_000 * luma - 344_136 * cb * UNITS_PER_ONE - 714_136 * cr
                * UNITS_PER_ONE),
        ) <= 1_000_000 * 2048,
{
}

/// Green before truncation lies within 2^-14 of the exact value of
/// `luma - 344136/1000000 * (cb - 128) - 714136/1000000 * (cr - 128)`. Both
/// sides are scaled by 1000000.
pub proof fn lemma_green_near_formula(luma: u8, cb: u8, cr: u8)
    ensures
        vstd::math::abs(
            1_000_000 * green_units(luma, cb, cr) - (1_000_000 * luma_units(luma) - 344_136
                * centred(cb) * UNITS_PER_ONE - 714_136 * centred(cr) * UNITS_PER_ONE),
        ) <= 1_000_000 * 2048,
{
    lemma_green_terms(cb, cr);
    let from_cb = round_single(GREEN_FROM_CB * centred(cb));
    let from_cr = round_single(GREEN_FROM_CR * centred(cr));
    let partial = round_single(luma_units(luma) - from_cb);
    assert(vstd::math::abs(partial - (luma_units(luma) - from_cb)) <= 512) by {
        lemma_round_error(luma_units(luma) - from_cb);
    }
    let sum = round_single(partial - from_cr);
    assert(vstd::math::abs(sum - (partial - from_cr)) <= 512) by {
        lemma_round_error(partial - from_cr);
    }
    lemma_green_errors_add_up(
        luma_units(luma),
        centred(cb),
        centred(cr),
        from_cb,
        partial,
        from_cr,
        sum,
    );
}

} // verus!
