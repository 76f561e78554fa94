//! Plain geometric value types on the fixed-point scale.

use vstd::prelude::*;
use crate::fx::{coord_ok};

verus! {

/// Largest pixel dimension of any buffer in the model; keeps every
/// pixel-center coordinate within the coordinate bound.
pub const MAX_DIM: u32 = 16383;

/// A point with fixed-point coordinates.
#[derive(Clone, Copy, Debug, PartialEq, Eq, Structural)]
pub struct PointFx {
    pub x: i64,
    pub y: i64,
}

/// An axis-aligned rectangle with fixed-point origin and size.
#[derive(Clone, Copy, Debug, PartialEq, Eq, Structural)]
pub struct RectFx {
    pub x: i64,
    pub y: i64,
    pub w: i64,
    pub h: i64,
}

/// A point with integer pixel coordinates.
#[derive(Clone, Copy, Debug, PartialEq, Eq, Structural)]
pub struct PointI {
    pub x: i32,
    pub y: i32,
}

/// An integer size in pixels.
#[derive(Clone, Copy, Debug, PartialEq, Eq, Structural)]
pub struct SizeI {
    pub width: i32,
    pub height: i32,
}

/// Both coordinates of a point lie within the coordinate bound.
pub open spec fn point_ok(p: PointFx) -> bool {
    coord_ok(p.x) && coord_ok(p.y)
}

/// A rectangle whose corners all lie within the coordinate bound and
/// whose extents are non-negative.
pub open spec fn rect_ok(r: RectFx) -> bool {
    &&& coord_ok(r.x)
    &&& coord_ok(r.y)
    &&& 0 <= r.w
    &&& 0 <= r.h
    &&& coord_ok((r.x + r.w) as i64)
    &&& coord_ok((r.y + r.h) as i64)
    &&& r.x + r.w <= i64::MAX
    &&& r.y + r.h <= i64::MAX
}

/// An axis-aligned rectangle with integer pixel coordinates.
#[derive(Clone, Copy, Debug, PartialEq, Eq, Structural)]
pub struct RectI {
    pub x: i32,
    pub y: i32,
    pub w: i32,
    pub h: i32,
}

/// Tests a point against a rectangle, with the half-open convention.
pub fn rect_contains_pt(r: &RectFx, q: PointFx) -> (b: bool)
    requires
        rect_ok(*r),
    ensures
        b == rect_contains(*r, q.x as int, q.y as int),
{
    r.x <= q.x && q.x < r.x + r.w && r.y <= q.y && q.y < r.y + r.h
}

/// Exact equality of two points.
pub fn point_eq(a: PointFx, b: PointFx) -> (r: bool)
    ensures
        r == (a == b),
{
    a.x == b.x && a.y == b.y
}

impl PointFx {
    /// Builds a point from its two coordinates.
    pub fn new(x: i64, y: i64) -> (p: PointFx)
        ensures
            p == (PointFx { x, y }),
    {
        PointFx { x, y }
    }
}

impl RectFx {
    /// Builds a rectangle from origin and size.
    pub fn new(x: i64, y: i64, w: i64, h: i64) -> (r: RectFx)
        ensures
            r == (RectFx { x, y, w, h }),
    {
        RectFx { x, y, w, h }
    }
}

/// Membership of a point in a rectangle, with the half-open convention
/// on the far edges.
pub open spec fn rect_contains(r: RectFx, x: int, y: int) -> bool {
    r.x <= x < r.x + r.w && r.y <= y < r.y + r.h
}

} // verus!
