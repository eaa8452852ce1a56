//! Fixed-point circular functions.  Angles are measured in micro-radians
//! rounded to whole numbers: `HALF_TURN` micro-radians make half a
//! revolution.  The sine on a half revolution is a rational
//! approximation whose sign behaviour is exact: it is zero at both ends
//! of the half turn and strictly positive everywhere in between, which
//! is what the particle lifecycle envelope relies on.

use vstd::prelude::*;
use vstd::arithmetic::div_mod::{
    lemma_div_is_ordered, lemma_div_multiples_vanish, lemma_mod_bound,
};
use crate::fx::{FX_ONE, lemma_div_shrinks_magnitude};

verus! {

/// Micro-radians in half a revolution.
pub const HALF_TURN: i64 = 3_141_592;

/// Micro-radians in a quarter revolution.
pub const QUARTER_TURN: i64 = 1_570_796;

/// Micro-radians in a full revolution.
pub const TURN: i64 = 6_283_184;

/// Numerator of the half-turn sine approximation.
pub open spec fn sin_half_num(x: int) -> int {
    16 * x * (HALF_TURN - x) * FX_ONE
}

/// Denominator of the half-turn sine approximation.
pub open spec fn sin_half_den(x: int) -> int {
    5 * HALF_TURN * HALF_TURN - 4 * x * (HALF_TURN - x)
}

/// Sine of `x` micro-radians for `0 <= x <= HALF_TURN`, scaled by
/// `FX_ONE`.
pub open spec fn sin_half_s(x: int) -> int {
    sin_half_num(x) / sin_half_den(x)
}

/// Sine over one full revolution: odd symmetry about the half turn.
pub open spec fn sin_turn_s(x: int) -> int {
    if x < HALF_TURN {
        sin_half_s(x)
    } else {
        -sin_half_s(x - HALF_TURN)
    }
}

/// Sine of an arbitrary angle in micro-radians.
pub open spec fn sin_at(a: int) -> int {
    sin_turn_s(a % (TURN as int))
}

/// Cosine of an arbitrary angle in micro-radians.
pub open spec fn cos_at(a: int) -> int {
    sin_at(a + QUARTER_TURN)
}

/// Sign behaviour and range of the half-turn sine: zero exactly at the
/// ends, strictly positive strictly inside, never above one unit.
pub proof fn lemma_sin_half_props(x: int)
    requires
        0 <= x <= HALF_TURN,
    ensures
        0 <= sin_half_s(x) <= FX_ONE,
        x == 0 ==> sin_half_s(x) == 0,
        x == HALF_TURN ==> sin_half_s(x) == 0,
        0 < x < HALF_TURN ==> sin_half_s(x) >= 1,
        sin_half_den(x) >= 1,
{
    let h = HALF_TURN as int;
    let s = FX_ONE as int;
    let u = x * (h - x);
    let num = sin_half_num(x);
    let den = sin_half_den(x);
    assert(num == 16 * u * s && den == 5 * h * h - 4 * u) by (nonlinear_arith)
        requires
            u == x * (h - x),
            num == 16 * x * (h - x) * s,
            den == 5 * h * h - 4 * x * (h - x),
    ;
    assert(0 <= u && 4 * u <= h * h) by (nonlinear_arith)
        requires
            0 <= x <= h,
            u == x * (h - x),
    ;
    assert(den >= 1);
    assert(0 <= num && num <= den * s && 16 * (h - 1) * s >= 5 * h * h) by (nonlinear_arith)
        requires
            num == 16 * u * s,
            den == 5 * h * h - 4 * u,
            4 * u <= h * h,
            s == 1_000_000,
            h == 3_141_592,
            0 <= u,
    ;
    vstd::arithmetic::div_mod::lemma_div_pos_is_pos(num, den);
    lemma_div_is_ordered(num, den * s, den);
    lemma_div_multiples_vanish(s, den);
    assert(sin_half_s(x) <= s);
    if x == 0 || x == h {
        assert(u == 0) by (nonlinear_arith)
            requires
                x == 0 || x == h,
                u == x * (h - x),
        ;
        assert(num == 0);
        assert(num / den == 0);
    }
    if 0 < x < h {
        // The product x * (h - x) is smallest at the ends of the range.
        assert(u >= h - 1) by (nonlinear_arith)
            requires
                1 <= x <= h - 1,
                u == x * (h - x),
        ;
        assert(num >= 16 * (h - 1) * s) by (nonlinear_arith)
            requires
                num == 16 * u * s,
                u >= h - 1,
                s >= 1,
        ;
        assert(den <= num);
        lemma_div_is_ordered(den, num, den);
        lemma_div_multiples_vanish(1, den);
        assert(sin_half_s(x) >= 1);
    }
}

/// Range of the sine over a full revolution.
pub proof fn lemma_sin_turn_range(x: int)
    requires
        0 <= x < TURN,
    ensures
        -FX_ONE <= sin_turn_s(x) <= FX_ONE,
{
    if x < HALF_TURN {
        lemma_sin_half_props(x);
    } else {
        lemma_sin_half_props(x - HALF_TURN);
    }
}

/// An angle reduced to `[0, TURN)`, congruent to the argument.
pub fn norm_angle(a: i64) -> (r: i64)
    ensures
        r == (a as int) % (TURN as int),
        0 <= r < TURN,
{
    proof {
        lemma_mod_bound(a as int, TURN as int);
    }
    match a.checked_rem_euclid(TURN) {
        Some(r) => r,
        None => 0,
    }
}

/// Sine of `x` micro-radians for `0 <= x <= HALF_TURN`, scaled by
/// `FX_ONE`.
pub fn sin_half(x: i64) -> (r: i64)
    requires
        0 <= x <= HALF_TURN,
    ensures
        r == sin_half_s(x as int),
        0 <= r <= FX_ONE,
{
    proof {
        lemma_sin_half_props(x as int);
        assert(0 <= x * (HALF_TURN - x) && 4 * (x * (HALF_TURN - x)) <= HALF_TURN * HALF_TURN)
            by (nonlinear_arith)
            requires 0 <= x <= HALF_TURN;
    }
    let u: i64 = x * (HALF_TURN - x);
    let num: i128 = 16 * (u as i128) * (FX_ONE as i128);
    let den: i128 = 5 * (HALF_TURN as i128) * (HALF_TURN as i128) - 4 * (u as i128);
    proof {
        assert(num == 16 * (x as int) * (HALF_TURN - x as int) * (FX_ONE as int)
            && den == 5 * (HALF_TURN as int) * (HALF_TURN as int)
                - 4 * (x as int) * (HALF_TURN - x as int))
            by (nonlinear_arith)
            requires
                u == x * (HALF_TURN - x),
                num == 16 * (u as int) * (FX_ONE as int),
                den == 5 * (HALF_TURN as int) * (HALF_TURN as int) - 4 * (u as int),
        ;
        assert(num == sin_half_num(x as int));
        assert(den == sin_half_den(x as int));
        lemma_div_shrinks_magnitude(num as int, den as int);
    }
    let q: i128 = match num.checked_div_euclid(den) {
        Some(q) => q,
        None => 0,
    };
    q as i64
}

/// Sine of an angle already reduced to `[0, TURN)`.
fn sin_turn(x: i64) -> (r: i64)
    requires
        0 <= x < TURN,
    ensures
        r == sin_turn_s(x as int),
        -FX_ONE <= r <= FX_ONE,
{
    if x < HALF_TURN {
        sin_half(x)
    } else {
        -sin_half(x - HALF_TURN)
    }
}

/// Sine of an arbitrary angle in micro-radians.
pub fn sin_fx(a: i64) -> (r: i64)
    ensures
        r == sin_at(a as int),
        -FX_ONE <= r <= FX_ONE,
{
    let n = norm_angle(a);
    sin_turn(n)
}

/// Cosine of an arbitrary angle in micro-radians.
pub fn cos_fx(a: i64) -> (r: i64)
    requires
        a <= i64::MAX - QUARTER_TURN,
    ensures
        r == cos_at(a as int),
        -FX_ONE <= r <= FX_ONE,
{
    sin_fx(a + QUARTER_TURN)
}

/// On the first quarter turn the sine approximation grows at least
/// half as fast as its argument, which gives denominators their lower
/// bounds.
pub proof fn lemma_sin_half_lower(x: int)
    requires
        0 <= x <= HALF_TURN / 2,
    ensures
        sin_half_s(x) >= x / 2,
{
    let h = HALF_TURN as int;
    let s = FX_ONE as int;
    let u = x * (h - x);
    let num = sin_half_num(x);
    let den = sin_half_den(x);
    assert(num == 16 * u * s && den == 5 * h * h - 4 * u) by (nonlinear_arith)
        requires
            u == x * (h - x),
            num == 16 * x * (h - x) * s,
            den == 5 * h * h - 4 * x * (h - x),
    ;
    assert(0 <= u && 4 * u <= h * h) by (nonlinear_arith)
        requires
            0 <= x <= h,
            u == x * (h - x),
    ;
    assert(den >= 1);
    assert(num >= den * (x / 2)) by (nonlinear_arith)
        requires
            num == 16 * u * s,
            den == 5 * h * h - 4 * u,
            u == x * (h - x),
            0 <= x <= h / 2,
            0 <= u,
            h == 3_141_592,
            s == 1_000_000,
    ;
    lemma_div_is_ordered(den * (x / 2), num, den);
    assert(den * (x / 2) == (x / 2) * den) by (nonlinear_arith);
    lemma_div_multiples_vanish(x / 2, den);
}

} // verus!
