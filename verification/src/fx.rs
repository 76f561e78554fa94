//! Fixed-point scale shared by every geometric quantity in the crate.
//!
//! Coordinates, stroke widths, opacities and transform coefficients are
//! `i64` values scaled by [`FX_ONE`]; angles are `i64` values scaled so
//! that [`FULL_TURN`] is one whole revolution.

use vstd::prelude::*;

verus! {

/// One unit (1.0) in the fixed-point coordinate scale.
pub const FX_ONE: i64 = 65536;

/// Half a unit (0.5) in the fixed-point coordinate scale.
pub const FX_HALF: i64 = 32768;

/// Magnitude bound on coordinates, transform coefficients and stroke
/// widths.  Keeping every geometric quantity within this bound lets all
/// intermediate products of the rasterization model fit in `i128`.
pub const COORD_LIMIT: i64 = 1073741824;

/// One full revolution in angle units.
pub const FULL_TURN: i64 = 4294967296;

/// Half a revolution in angle units.
pub const HALF_TURN: i64 = 2147483648;

/// A quarter revolution in angle units.
pub const QUARTER_TURN: i64 = 1073741824;

/// An eighth of a revolution in angle units; arcs are flattened into
/// segments no wider than this.
pub const EIGHTH_TURN: i64 = 536870912;

/// Magnitude bound on angles accepted by the arc routines, so that the
/// angle-wrapping arithmetic cannot overflow.
pub const ANGLE_LIMIT: i64 = 140737488355328;

/// A fixed-point value within the coordinate bound.
pub open spec fn coord_ok(v: i64) -> bool {
    -COORD_LIMIT <= v <= COORD_LIMIT
}

/// An angle within the accepted magnitude bound.
pub open spec fn angle_ok(v: i64) -> bool {
    -ANGLE_LIMIT <= v <= ANGLE_LIMIT
}

/// Saturates a value into the coordinate bound.
pub open spec fn spec_clamp_coord(v: int) -> i64 {
    if v < -COORD_LIMIT {
        (-COORD_LIMIT) as i64
    } else if v > COORD_LIMIT {
        COORD_LIMIT
    } else {
        v as i64
    }
}

/// Saturates a value into the coordinate bound.
pub fn clamp_coord(v: i64) -> (r: i64)
    ensures
        r == spec_clamp_coord(v as int),
        coord_ok(r),
{
    if v < -COORD_LIMIT {
        -COORD_LIMIT
    } else if v > COORD_LIMIT {
        COORD_LIMIT
    } else {
        v
    }
}

/// Absolute value.
pub open spec fn spec_abs(a: int) -> int {
    if a < 0 { -a } else { a }
}

/// Division truncating toward zero, the semantics of `/` on the
/// machine's signed integers.
pub open spec fn spec_tdiv(a: int, b: int) -> int {
    if (a < 0) == (b < 0) {
        spec_abs(a) / spec_abs(b)
    } else {
        -(spec_abs(a) / spec_abs(b))
    }
}

/// Wide truncating division.
pub fn tdiv128(a: i128, b: i128) -> (r: i128)
    requires
        b != 0,
        a != i128::MIN,
        b != i128::MIN,
    ensures
        r == spec_tdiv(a as int, b as int),
        -spec_abs(a as int) <= r <= spec_abs(a as int),
{
    proof {
        assert(spec_abs(a as int) / spec_abs(b as int) <= spec_abs(a as int)) by (nonlinear_arith)
            requires b != 0, spec_abs(a as int) >= 0, spec_abs(b as int) >= 1;
        assert(spec_abs(a as int) / spec_abs(b as int) >= 0) by (nonlinear_arith)
            requires spec_abs(a as int) >= 0, spec_abs(b as int) >= 1;
    }
    if a >= 0 {
        if b >= 0 { a / b } else { -(a / (-b)) }
    } else {
        if b >= 0 { -((-a) / b) } else { (-a) / (-b) }
    }
}

/// Narrow truncating division.
pub fn tdiv64(a: i64, b: i64) -> (r: i64)
    requires
        b != 0,
        a != i64::MIN,
        b != i64::MIN,
    ensures
        r == spec_tdiv(a as int, b as int),
        -spec_abs(a as int) <= r <= spec_abs(a as int),
{
    tdiv128(a as i128, b as i128) as i64
}

/// The magnitude of a truncating quotient is the quotient of the
/// magnitudes.
pub proof fn lemma_tdiv_abs(a: int, b: int)
    requires
        b != 0,
    ensures
        spec_abs(spec_tdiv(a, b)) == spec_abs(a) / spec_abs(b),
{
    vstd::arithmetic::div_mod::lemma_div_pos_is_pos(spec_abs(a), spec_abs(b));
}

/// Magnitude bound on a truncating quotient whose numerator is bounded
/// and whose denominator is bounded below.
pub proof fn lemma_tdiv_abs_le(a: int, b: int, m: int, dmin: int)
    requires
        spec_abs(a) <= m,
        1 <= dmin <= spec_abs(b),
    ensures
        spec_abs(spec_tdiv(a, b)) <= m / dmin,
{
    lemma_tdiv_abs(a, b);
    vstd::arithmetic::div_mod::lemma_div_is_ordered(spec_abs(a), m, spec_abs(b));
    vstd::arithmetic::div_mod::lemma_div_is_ordered_by_denominator(m, dmin, spec_abs(b));
}

/// Dividing a product `a * j` by `n` with `0 <= j <= n` cannot grow
/// past the magnitude of `a`.
pub proof fn lemma_tdiv_scaled_le(a: int, j: int, n: int)
    requires
        1 <= n,
        0 <= j <= n,
    ensures
        spec_abs(spec_tdiv(a * j, n)) <= spec_abs(a),
{
    lemma_tdiv_abs(a * j, n);
    assert(spec_abs(a * j) == spec_abs(a) * j) by (nonlinear_arith)
        requires 0 <= j;
    assert(spec_abs(a) * j <= spec_abs(a) * n) by (nonlinear_arith)
        requires 0 <= j <= n, 0 <= spec_abs(a);
    vstd::arithmetic::div_mod::lemma_div_is_ordered(spec_abs(a) * j, spec_abs(a) * n, n);
    vstd::arithmetic::div_mod::lemma_div_by_multiple(spec_abs(a), n);
}

/// Magnitude bound on a product from magnitude bounds on its factors.
pub proof fn lemma_abs_mul_le(a: int, b: int, m: int, n: int)
    requires
        -m <= a <= m,
        -n <= b <= n,
        0 <= m,
        0 <= n,
    ensures
        -(m * n) <= a * b <= m * n,
{
    assert(-(m * n) <= a * b <= m * n) by (nonlinear_arith)
        requires -m <= a <= m, -n <= b <= n, 0 <= m, 0 <= n;
}

/// Saturates a wide intermediate value into the coordinate bound.
pub fn clamp_coord_wide(v: i128) -> (r: i64)
    ensures
        r == spec_clamp_coord(v as int),
        coord_ok(r),
{
    if v < -(COORD_LIMIT as i128) {
        -COORD_LIMIT
    } else if v > COORD_LIMIT as i128 {
        COORD_LIMIT
    } else {
        v as i64
    }
}

} // verus!
