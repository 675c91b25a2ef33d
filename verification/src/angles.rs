//! Fixed-point angles: orientations are milliradians in `[0, TAU_MR)` and
//! the sine is computed by Bhaskara's rational approximation, scaled so
//! that a full amplitude is 1000.
use vstd::prelude::*;

verus! {

/// Milliradians in a half turn.
pub const PI_MR: i64 = 3142;

/// Milliradians in a full turn; orientations always lie in `[0, TAU_MR)`.
pub const TAU_MR: i64 = 6284;

/// Milliradians in a quarter turn.
pub const QUARTER_MR: i64 = 1571;

/// Sine of `x` milliradians for `0 <= x <= PI_MR`, scaled by 1000:
/// Bhaskara's approximation `16 x (pi - x) / (5 pi^2 - 4 x (pi - x))`.
pub open spec fn sin_half_milli(x: int) -> int {
    16000 * (x * (PI_MR - x)) / (5 * PI_MR * PI_MR - 4 * (x * (PI_MR - x)))
}

/// Sine of an orientation in `[0, TAU_MR)`, scaled by 1000.
pub open spec fn sin_milli(a: int) -> int {
    if a <= PI_MR {
        sin_half_milli(a)
    } else {
        -sin_half_milli(a - PI_MR)
    }
}

/// Cosine of an orientation in `[0, TAU_MR)`, scaled by 1000: the sine a
/// quarter turn ahead.
pub open spec fn cos_milli(a: int) -> int {
    sin_milli((a + QUARTER_MR) % (TAU_MR as int))
}

/// On `0 <= x <= PI_MR` the scaled sine stays within `[0, 1000]`.
pub proof fn lemma_sin_half_bounds(x: int)
    requires
        0 <= x <= PI_MR,
    ensures
        0 <= sin_half_milli(x) <= 1000,
{
    let p = x * (PI_MR - x);
    let den = 5 * PI_MR * PI_MR - 4 * p;
    assert(0 <= p && 4 * p <= PI_MR * PI_MR) by (nonlinear_arith)
        requires
            0 <= x <= PI_MR,
            p == x * (PI_MR - x),
    ;
    assert(den > 0);
    vstd::arithmetic::div_mod::lemma_div_pos_is_pos(16000 * p, den);
    assert(16000 * p <= den * 1000) by (nonlinear_arith)
        requires
            4 * p <= PI_MR * PI_MR,
            den == 5 * PI_MR * PI_MR - 4 * p,
            0 <= p,
    ;
    vstd::arithmetic::div_mod::lemma_multiply_divide_le(16000 * p, den, 1000);
}

/// The scaled sine of any orientation stays within `[-1000, 1000]`.
pub proof fn lemma_sin_bounds(a: int)
    requires
        0 <= a < TAU_MR,
    ensures
        -1000 <= sin_milli(a) <= 1000,
{
    if a <= PI_MR {
        lemma_sin_half_bounds(a);
    } else {
        lemma_sin_half_bounds(a - PI_MR);
    }
}

/// The scaled cosine of any orientation stays within `[-1000, 1000]`.
pub proof fn lemma_cos_bounds(a: int)
    requires
        0 <= a < TAU_MR,
    ensures
        -1000 <= cos_milli(a) <= 1000,
{
    let b = (a + QUARTER_MR) % (TAU_MR as int);
    vstd::arithmetic::div_mod::lemma_mod_bound(a + QUARTER_MR, TAU_MR as int);
    lemma_sin_bounds(b);
}

/// Computes `sin_half_milli` exactly.
pub fn sin_half_exec(x: i64) -> (r: i64)
    requires
        0 <= x <= PI_MR,
    ensures
        r == sin_half_milli(x as int),
        0 <= r <= 1000,
{
    proof {
        lemma_sin_half_bounds(x as int);
        assert(x * (PI_MR - x) <= PI_MR * PI_MR) by (nonlinear_arith)
            requires
                0 <= x <= PI_MR,
        ;
        assert(0 <= x * (PI_MR - x)) by (nonlinear_arith)
            requires
                0 <= x <= PI_MR,
        ;
    }
    let p: i64 = x * (PI_MR - x);
    let den: i64 = 5 * PI_MR * PI_MR - 4 * p;
    (16000 * p) / den
}

/// Computes `sin_milli` exactly.
pub fn sin_exec(a: i64) -> (r: i64)
    requires
        0 <= a < TAU_MR,
    ensures
        r == sin_milli(a as int),
        -1000 <= r <= 1000,
{
    if a <= PI_MR {
        sin_half_exec(a)
    } else {
        let v = sin_half_exec(a - PI_MR);
        -v
    }
}

/// Computes `cos_milli` exactly.
pub fn cos_exec(a: i64) -> (r: i64)
    requires
        0 <= a < TAU_MR,
    ensures
        r == cos_milli(a as int),
        -1000 <= r <= 1000,
{
    proof {
        lemma_cos_bounds(a as int);
        vstd::arithmetic::div_mod::lemma_mod_bound(a + QUARTER_MR, TAU_MR as int);
    }
    let b: i64 = (a + QUARTER_MR) % TAU_MR;
    sin_exec(b)
}

/// The new orientation after turning at `turn_rate` milliradians per second
/// for `dt` milliseconds, reduced to `[0, TAU_MR)`.
pub open spec fn turned(o: int, turn_rate: int, dt: int) -> int {
    let mag = if turn_rate >= 0 {
        turn_rate
    } else {
        -turn_rate
    };
    let d = (mag * dt / 1000) % (TAU_MR as int);
    if turn_rate >= 0 {
        (o + d) % (TAU_MR as int)
    } else {
        (o + TAU_MR - d) % (TAU_MR as int)
    }
}

/// `turned` always lands back in `[0, TAU_MR)`.
pub proof fn lemma_turned_in_range(o: int, turn_rate: int, dt: int)
    requires
        0 <= o < TAU_MR,
        0 <= dt,
    ensures
        0 <= turned(o, turn_rate, dt) < TAU_MR,
{
    let mag = if turn_rate >= 0 {
        turn_rate
    } else {
        -turn_rate
    };
    let d = (mag * dt / 1000) % (TAU_MR as int);
    vstd::arithmetic::div_mod::lemma_mod_bound(mag * dt / 1000, TAU_MR as int);
    if turn_rate >= 0 {
        vstd::arithmetic::div_mod::lemma_mod_bound(o + d, TAU_MR as int);
    } else {
        vstd::arithmetic::div_mod::lemma_mod_bound(o + TAU_MR - d, TAU_MR as int);
    }
}

/// Computes `turned` exactly; the turn rate must be small enough that the
/// sweep fits comfortably in 64 bits.
pub fn turned_exec(o: i64, turn_rate: i64, dt: i64) -> (r: i64)
    requires
        0 <= o < TAU_MR,
        -10000 <= turn_rate <= 10000,
        0 <= dt <= 1000000000,
    ensures
        r == turned(o as int, turn_rate as int, dt as int),
        0 <= r < TAU_MR,
{
    proof {
        lemma_turned_in_range(o as int, turn_rate as int, dt as int);
        let mag: int = if turn_rate >= 0 {
            turn_rate as int
        } else {
            -turn_rate as int
        };
        assert(mag * dt <= 10000 * 1000000000) by (nonlinear_arith)
            requires
                0 <= mag <= 10000,
                0 <= dt <= 1000000000,
        ;
        assert(0 <= mag * dt) by (nonlinear_arith)
            requires
                0 <= mag,
                0 <= dt,
        ;
    }
    let mag: i64 = if turn_rate >= 0 {
        turn_rate
    } else {
        -turn_rate
    };
    let d: i64 = (mag * dt / 1000) % TAU_MR;
    proof {
        vstd::arithmetic::div_mod::lemma_mod_bound(mag as int * dt as int / 1000, TAU_MR as int);
    }
    if turn_rate >= 0 {
        (o + d) % TAU_MR
    } else {
        (o + TAU_MR - d) % TAU_MR
    }
}

} // verus!
