//! Angles, the signed arc sweep, and fixed-point trigonometry.
//!
//! Angles are `i64` values on the scale fixed by
//! [`crate::fx::FULL_TURN`].  The sweep computation reproduces the
//! canvas-API arc direction rules: redundant full turns are wrapped
//! away, a whole-circle request keeps its full sweep instead of
//! collapsing to zero, and the sign follows the `anticlockwise` flag.
//! The cosine is the crate's own quarter-wave quadratic approximation;
//! it is exact at multiples of a quarter turn and its whole behaviour
//! is fixed by `spec_cos_turn`.

use vstd::prelude::*;
use crate::fx::{
    FX_ONE, FULL_TURN, HALF_TURN, QUARTER_TURN, ANGLE_LIMIT, angle_ok, spec_abs,
};

verus! {

/// Divisor turning a squared quarter-turn angle into one fixed-point
/// unit: `QUARTER_TURN * QUARTER_TURN / FX_ONE`.
pub const COSINE_DIV: i64 = 17592186044416;

/// Magnitude bound on angles handed to the trigonometric routines.
pub const TRIG_LIMIT: i64 = 562949953421312;

/// An offset, multiple of a full turn, that shifts every in-range angle
/// into the non-negative integers before reduction.
pub const ANGLE_OFFSET: i64 = 1125899906842624;

/// The positive representative of an angle, in `[0, FULL_TURN)`.
pub open spec fn spec_positive(a: int) -> int {
    (a + ANGLE_OFFSET) % (FULL_TURN as int)
}

/// Wraps an angle into its positive representative.
pub fn positive_turn(a: i64) -> (r: i64)
    requires
        -TRIG_LIMIT <= a <= TRIG_LIMIT,
    ensures
        r == spec_positive(a as int),
        0 <= r < FULL_TURN,
{
    (a + ANGLE_OFFSET) % FULL_TURN
}

/// Quarter-wave cosine: a downward quadratic through one at angle zero
/// and zero at a quarter turn.
pub open spec fn spec_cos_q(x: int) -> int {
    FX_ONE - (x * x) / (COSINE_DIV as int)
}

/// Cosine of an angle, by quadrant symmetry over the quarter wave.
pub open spec fn spec_cos_turn(a: int) -> int {
    let n = spec_positive(a);
    if n < QUARTER_TURN {
        spec_cos_q(n)
    } else if n < HALF_TURN {
        -spec_cos_q(HALF_TURN - n)
    } else if n < HALF_TURN + QUARTER_TURN {
        -spec_cos_q(n - HALF_TURN)
    } else {
        spec_cos_q(FULL_TURN - n)
    }
}

/// Sine of an angle: the cosine shifted back a quarter turn.
pub open spec fn spec_sin_turn(a: int) -> int {
    spec_cos_turn(a - QUARTER_TURN)
}

/// Quarter-wave cosine on `[0, QUARTER_TURN]`.
pub fn cos_q(x: i64) -> (r: i64)
    requires
        0 <= x <= QUARTER_TURN,
    ensures
        r == spec_cos_q(x as int),
        0 <= r <= FX_ONE,
{
    proof {
        crate::fx::lemma_abs_mul_le(x as int, x as int, QUARTER_TURN as int, QUARTER_TURN as int);
        assert((x as int) * (x as int) / (COSINE_DIV as int) <= FX_ONE) by (nonlinear_arith)
            requires 0 <= (x as int) * (x as int) <= (QUARTER_TURN as int) * (QUARTER_TURN as int);
        assert((x as int) * (x as int) / (COSINE_DIV as int) >= 0) by (nonlinear_arith)
            requires 0 <= (x as int) * (x as int);
    }
    FX_ONE - (x * x) / COSINE_DIV
}

/// Cosine of an angle on the turn scale.
pub fn cos_turn(a: i64) -> (r: i64)
    requires
        -TRIG_LIMIT <= a <= TRIG_LIMIT,
    ensures
        r == spec_cos_turn(a as int),
        -FX_ONE <= r <= FX_ONE,
{
    let n = positive_turn(a);
    if n < QUARTER_TURN {
        cos_q(n)
    } else if n < HALF_TURN {
        -cos_q(HALF_TURN - n)
    } else if n < HALF_TURN + QUARTER_TURN {
        -cos_q(n - HALF_TURN)
    } else {
        cos_q(FULL_TURN - n)
    }
}

/// Sine of an angle on the turn scale.
pub fn sin_turn(a: i64) -> (r: i64)
    requires
        -TRIG_LIMIT < a - QUARTER_TURN,
        a - QUARTER_TURN <= TRIG_LIMIT,
    ensures
        r == spec_sin_turn(a as int),
        -FX_ONE <= r <= FX_ONE,
{
    cos_turn(a - QUARTER_TURN)
}

/// Whether an arc's angle range carries a redundant full turn and must
/// be wrapped before the sweep is computed.
pub open spec fn spec_arc_wrap(start: int, end: int, anticlockwise: bool) -> bool {
    (!anticlockwise && start > end + FULL_TURN) || (anticlockwise && end > start + FULL_TURN)
}

/// The start angle an arc is actually traced from: the given one, or
/// its positive representative when the range had to be wrapped.
pub open spec fn spec_arc_start(start: int, end: int, anticlockwise: bool) -> int {
    if spec_arc_wrap(start, end, anticlockwise) {
        spec_positive(start)
    } else {
        start
    }
}

/// Computes the start angle an arc is traced from.
pub fn arc_start(start: i64, end: i64, anticlockwise: bool) -> (r: i64)
    requires
        angle_ok(start),
        angle_ok(end),
    ensures
        r == spec_arc_start(start as int, end as int, anticlockwise),
        spec_abs(r as int) <= ANGLE_LIMIT,
{
    if (!anticlockwise && start > end + FULL_TURN) || (anticlockwise && end > start + FULL_TURN) {
        positive_turn(start)
    } else {
        start
    }
}

/// The signed sweep of an arc between two angles, following the canvas
/// arc-direction rules: both angles are wrapped into their positive
/// representatives when the range carries a redundant full turn, an
/// exactly-full-circle range keeps the whole turn, and anticlockwise
/// sweeps are negative.
pub open spec fn spec_arc_sweep(start: int, end: int, anticlockwise: bool) -> int {
    let wrap = spec_arc_wrap(start, end, anticlockwise);
    let s = if wrap { spec_positive(start) } else { start };
    let e = if wrap { spec_positive(end) } else { end };
    if anticlockwise {
        if e - s == FULL_TURN {
            -(FULL_TURN as int)
        } else if e > s {
            -(FULL_TURN - (e - s))
        } else {
            -(s - e)
        }
    } else {
        if s - e == FULL_TURN {
            FULL_TURN as int
        } else if s > e {
            FULL_TURN - (s - e)
        } else {
            e - s
        }
    }
}

/// Computes the signed arc sweep.
pub fn arc_sweep(start: i64, end: i64, anticlockwise: bool) -> (r: i64)
    requires
        angle_ok(start),
        angle_ok(end),
    ensures
        r == spec_arc_sweep(start as int, end as int, anticlockwise),
        spec_abs(r as int) <= 2 * ANGLE_LIMIT + FULL_TURN,
{
    let wrap = (!anticlockwise && start > end + FULL_TURN)
        || (anticlockwise && end > start + FULL_TURN);
    let s = if wrap { positive_turn(start) } else { start };
    let e = if wrap { positive_turn(end) } else { end };
    if anticlockwise {
        if e - s == FULL_TURN {
            -FULL_TURN
        } else if e > s {
            -(FULL_TURN - (e - s))
        } else {
            -(s - e)
        }
    } else {
        if s - e == FULL_TURN {
            FULL_TURN
        } else if s > e {
            FULL_TURN - (s - e)
        } else {
            e - s
        }
    }
}

} // verus!
