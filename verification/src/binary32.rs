//! An exact integer model of IEEE 754 single-precision arithmetic, for the
//! small magnitudes that pixel conversion produces.
//!
//! Every value is counted in units of 2^-25. At that resolution the four
//! conversion coefficients, every product of a coefficient with a centred
//! chroma sample, and every partial sum are whole numbers of units, so the
//! rounding that single precision applies after each operation can be stated
//! on integers: a magnitude keeps its 24 leading bits, and what lies below
//! them is rounded to the nearest kept value, ties going to the even one.

use vstd::prelude::*;

verus! {

/// Units in the value one (2^25).
pub const UNITS_PER_ONE: i64 = 33_554_432;

/// Magnitudes below this bound (2^24) have at most 24 significant bits and
/// are representable as they stand.
pub const SIGNIFICAND_LIMIT: u64 = 16_777_216;

/// Largest magnitude, in units, that the executable rounding accepts (2^40).
pub const ROUNDING_RANGE: i64 = 1_099_511_627_776;

/// Distance, in units, between neighbouring single-precision values at
/// magnitude `m`: one below 2^24 units, doubling with every further bit.
pub open spec fn spacing(m: nat) -> nat
    decreases m,
{
    if m < SIGNIFICAND_LIMIT {
        1
    } else {
        2 * spacing(m / 2)
    }
}

/// The representable magnitude nearest to `m`, ties to the even multiple of
/// the spacing.
pub open spec fn round_magnitude(m: nat) -> nat {
    let q = spacing(m);
    let low = (m / q) * q;
    let rest = m % q;
    if 2 * rest < q {
        low
    } else if 2 * rest > q {
        low + q
    } else if (m / q) % 2 == 0 {
        low
    } else {
        low + q
    }
}

/// Single-precision rounding of a signed count of units. Rounding is
/// symmetric about zero.
pub open spec fn round_single(n: int) -> int {
    if n >= 0 {
        round_magnitude(n as nat) as int
    } else {
        -(round_magnitude((-n) as nat) as int)
    }
}

/// Truncation of a count of units toward zero, to a whole number.
pub open spec fn whole_part(n: int) -> int {
    if n >= 0 {
        n / (UNITS_PER_ONE as int)
    } else {
        -((-n) / (UNITS_PER_ONE as int))
    }
}

/// The low eight bits of a whole number: values outside `0..=255` wrap around
/// instead of saturating.
pub open spec fn wrap_byte(whole: int) -> u8 {
    (whole % 256) as u8
}

/// The spacing is positive and never exceeds a magnitude of at least one.
pub proof fn lemma_spacing_bounds(m: nat)
    ensures
        spacing(m) >= 1,
        m >= 1 ==> spacing(m) <= m,
    decreases m,
{
    if m >= 16_777_216 {
        lemma_spacing_bounds(m / 2);
    }
}

/// The spacing at the magnitudes that pixel conversion reaches: below 2^24
/// units it is one, and it doubles at each power of two from there on.
pub proof fn lemma_spacing_steps(m: nat)
    ensures
        m < 0x100_0000 ==> spacing(m) == 1,
        0x100_0000 <= m < 0x200_0000 ==> spacing(m) == 2,
        0x200_0000 <= m < 0x400_0000 ==> spacing(m) == 4,
        0x400_0000 <= m < 0x800_0000 ==> spacing(m) == 8,
        0x800_0000 <= m < 0x1000_0000 ==> spacing(m) == 16,
        0x1000_0000 <= m < 0x2000_0000 ==> spacing(m) == 32,
        0x2000_0000 <= m < 0x4000_0000 ==> spacing(m) == 64,
        0x4000_0000 <= m < 0x8000_0000 ==> spacing(m) == 128,
        0x8000_0000 <= m < 0x1_0000_0000 ==> spacing(m) == 256,
        0x1_0000_0000 <= m < 0x2_0000_0000 ==> spacing(m) == 512,
        0x2_0000_0000 <= m < 0x4_0000_0000 ==> spacing(m) == 1024,
{
    reveal_with_fuel(spacing, 11);
}

/// A magnitude that is a multiple of the spacing at its size is
/// representable: rounding leaves it unchanged.
pub proof fn lemma_multiple_of_spacing_is_exact(m: nat, q: nat)
    requires
        q == spacing(m),
        q > 0,
        m % q == 0,
    ensures
        round_magnitude(m) == m,
{
    vstd::arithmetic::div_mod::lemma_fundamental_div_mod(m as int, q as int);
    assert((m / q) * q == q * (m / q)) by (nonlinear_arith);
}

/// Rounding is to nearest, ties to even: the rounded magnitude is a multiple
/// of the spacing, it lies within half a spacing of the magnitude, and where
/// the magnitude lies halfway between two multiples the even one is taken.
pub proof fn lemma_round_is_nearest(m: nat)
    ensures
        round_magnitude(m) % spacing(m) == 0,
        2 * vstd::math::abs(round_magnitude(m) - m) <= spacing(m),
        2 * (m % spacing(m)) == spacing(m) ==> (round_magnitude(m) / spacing(m)) % 2 == 0,
{
    let q = spacing(m) as int;
    let steps = m as int / q;
    lemma_spacing_bounds(m);
    vstd::arithmetic::div_mod::lemma_fundamental_div_mod(m as int, q);
    assert(steps * q == q * steps) by (nonlinear_arith);
    assert((steps + 1) * q == steps * q + q) by (nonlinear_arith);
    vstd::arithmetic::div_mod::lemma_mod_multiples_basic(steps, q);
    vstd::arithmetic::div_mod::lemma_mod_multiples_basic(steps + 1, q);
    vstd::arithmetic::div_mod::lemma_div_by_multiple(steps, q);
    assert(steps >= 0) by (nonlinear_arith)
        requires
            m == q * steps + m % (q as nat),
            0 <= m % (q as nat) < q,
            q >= 1,
    ;
    vstd::arithmetic::div_mod::lemma_div_by_multiple(steps + 1, q);
}

/// How far rounding moves a value: at most half the spacing at its
/// magnitude, which below 512 (2^34 units) is at most 512 units.
pub proof fn lemma_round_error(n: int)
    requires
        -0x4_0000_0000 < n < 0x4_0000_0000,
    ensures
        2 * vstd::math::abs(round_single(n) - n) <= spacing(vstd::math::abs(n) as nat) <= 1024,
{
    let m = vstd::math::abs(n) as nat;
    lemma_round_is_nearest(m);
    lemma_spacing_steps(m);
}

/// Computes the spacing at magnitude `m` by halving until 24 bits remain.
fn spacing_of(m: u64) -> (q: u64)
    ensures
        q == spacing(m as nat),
        q >= 1,
        m >= 1 ==> q <= m,
{
    let mut rest: u64 = m;
    let mut q: u64 = 1;
    while rest >= SIGNIFICAND_LIMIT
        invariant
            q >= 1,
            q * rest <= m,
            spacing(m as nat) == q * spacing(rest as nat),
        decreases rest,
    {
        proof {
            let half = rest / 2;
            assert((2 * q) * half <= q * rest) by (nonlinear_arith)
                requires
                    2 * half <= rest,
                    q >= 1,
            ;
            assert(q * 16_777_216 <= q * rest) by (nonlinear_arith)
                requires
                    rest >= 16_777_216,
                    q >= 1,
            ;
            assert(q * (2 * spacing(half as nat)) == (2 * q) * spacing(half as nat))
                by (nonlinear_arith);
        }
        rest = rest / 2;
        q = q * 2;
    }
    proof {
        assert(spacing(rest as nat) == 1);
        assert(q * 1 == q) by (nonlinear_arith);
        lemma_spacing_bounds(m as nat);
    }
    q
}

/// Rounds a count of units to single precision.
pub(crate) fn round_units(n: i64) -> (r: i64)
    requires
        -ROUNDING_RANGE <= n <= ROUNDING_RANGE,
    ensures
        r == round_single(n as int),
        n >= 0 ==> 0 <= r <= 2 * n,
        n < 0 ==> 2 * n <= r <= 0,
{
    let negative = n < 0;
    let m: u64 = if negative {
        (-n) as u64
    } else {
        n as u64
    };
    let q = spacing_of(m);
    let steps: u64 = m / q;
    let rest: u64 = m % q;
    proof {
        assert(steps * q + rest == m) by (nonlinear_arith)
            requires
                steps == m / q,
                rest == m % q,
                q >= 1,
        ;
        assert(steps * q <= m);
    }
    let low: u64 = steps * q;
    let rounded: u64 = if 2 * rest < q {
        low
    } else if 2 * rest > q {
        low + q
    } else if steps % 2 == 0 {
        low
    } else {
        low + q
    };
    if negative {
        -(rounded as i64)
    } else {
        rounded as i64
    }
}

/// Truncates a count of units toward zero and keeps the low eight bits.
pub(crate) fn truncate_to_byte(n: i64) -> (b: u8)
    requires
        -ROUNDING_RANGE <= n <= ROUNDING_RANGE,
    ensures
        b == wrap_byte(whole_part(n as int)),
{
    let whole: i64 = if n >= 0 {
        n / UNITS_PER_ONE
    } else {
        -((-n) / UNITS_PER_ONE)
    };
    // 32768 is a multiple of 256 above every magnitude in range, so the
    // remainder below is taken of a non-negative number.
    let lifted: i64 = whole + 32_768;
    (lifted % 256) as u8
}

} // verus!
