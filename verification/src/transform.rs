//! Affine 2×3 transforms on the fixed-point scale.
//!
//! The coefficient layout follows the usual row-major convention:
//! `x' = (m11·x + m21·y)/1.0 + m31` and `y' = (m12·x + m22·y)/1.0 + m32`,
//! with every coefficient a fixed-point value.  Mapped points are
//! saturated into the coordinate bound, so all downstream geometry stays
//! within the range the rasterization model is proved safe for.

use vstd::prelude::*;
use crate::fx::{FX_ONE, COORD_LIMIT, coord_ok, spec_clamp_coord, clamp_coord_wide, spec_tdiv, tdiv128};
use crate::geom::{PointFx, point_ok};

verus! {

/// An affine transform with six fixed-point coefficients.
#[derive(Clone, Copy, Debug, PartialEq, Eq, Structural)]
pub struct Transform {
    pub m11: i64,
    pub m12: i64,
    pub m21: i64,
    pub m22: i64,
    pub m31: i64,
    pub m32: i64,
}

/// Every coefficient lies within the coordinate bound.
pub open spec fn transform_ok(t: Transform) -> bool {
    &&& coord_ok(t.m11)
    &&& coord_ok(t.m12)
    &&& coord_ok(t.m21)
    &&& coord_ok(t.m22)
    &&& coord_ok(t.m31)
    &&& coord_ok(t.m32)
}

/// The transform with every coefficient saturated into the coordinate
/// bound.
pub open spec fn spec_sanitize(t: Transform) -> Transform {
    Transform {
        m11: spec_clamp_coord(t.m11 as int),
        m12: spec_clamp_coord(t.m12 as int),
        m21: spec_clamp_coord(t.m21 as int),
        m22: spec_clamp_coord(t.m22 as int),
        m31: spec_clamp_coord(t.m31 as int),
        m32: spec_clamp_coord(t.m32 as int),
    }
}

/// The image of a point under a transform, saturated into the
/// coordinate bound.
pub open spec fn spec_apply(t: Transform, p: PointFx) -> PointFx {
    PointFx {
        x: spec_clamp_coord(spec_tdiv(t.m11 * p.x + t.m21 * p.y, FX_ONE as int) + t.m31),
        y: spec_clamp_coord(spec_tdiv(t.m12 * p.x + t.m22 * p.y, FX_ONE as int) + t.m32),
    }
}

/// The raw (doubly scaled) determinant of the linear part.
pub open spec fn spec_det_raw(t: Transform) -> int {
    t.m11 * t.m22 - t.m12 * t.m21
}

/// The inverse transform, with each coefficient rounded to the
/// fixed-point grid and saturated into the coordinate bound; meaningful
/// only when the determinant is non-zero.
pub open spec fn spec_invert(t: Transform) -> Transform {
    let d = spec_det_raw(t);
    let i11 = spec_clamp_coord(spec_tdiv(t.m22 * FX_ONE * FX_ONE, d));
    let i12 = spec_clamp_coord(spec_tdiv(-(t.m12 * FX_ONE * FX_ONE), d));
    let i21 = spec_clamp_coord(spec_tdiv(-(t.m21 * FX_ONE * FX_ONE), d));
    let i22 = spec_clamp_coord(spec_tdiv(t.m11 * FX_ONE * FX_ONE, d));
    Transform {
        m11: i11,
        m12: i12,
        m21: i21,
        m22: i22,
        m31: spec_clamp_coord(-spec_tdiv(i11 * t.m31 + i21 * t.m32, FX_ONE as int)),
        m32: spec_clamp_coord(-spec_tdiv(i12 * t.m31 + i22 * t.m32, FX_ONE as int)),
    }
}

impl Transform {
    /// The identity transform.
    pub fn identity() -> (t: Transform)
        ensures
            t == (Transform { m11: FX_ONE, m12: 0, m21: 0, m22: FX_ONE, m31: 0, m32: 0 }),
            transform_ok(t),
    {
        Transform { m11: FX_ONE, m12: 0, m21: 0, m22: FX_ONE, m31: 0, m32: 0 }
    }

    /// Builds a transform from its six coefficients in row order.
    pub fn row_major(m11: i64, m12: i64, m21: i64, m22: i64, m31: i64, m32: i64) -> (t: Transform)
        ensures
            t == (Transform { m11, m12, m21, m22, m31, m32 }),
    {
        Transform { m11, m12, m21, m22, m31, m32 }
    }

    /// Saturates every coefficient into the coordinate bound; drawing
    /// operations sanitize the current transform before doing any
    /// arithmetic on it, while `set_transform`/`get_transform` round-trip
    /// the raw coefficients exactly.
    pub fn sanitize(&self) -> (r: Transform)
        ensures
            r == spec_sanitize(*self),
            transform_ok(r),
    {
        Transform {
            m11: crate::fx::clamp_coord(self.m11),
            m12: crate::fx::clamp_coord(self.m12),
            m21: crate::fx::clamp_coord(self.m21),
            m22: crate::fx::clamp_coord(self.m22),
            m31: crate::fx::clamp_coord(self.m31),
            m32: crate::fx::clamp_coord(self.m32),
        }
    }

    /// Maps a point through the transform, saturating the result into
    /// the coordinate bound.
    pub fn apply(&self, p: PointFx) -> (r: PointFx)
        requires
            transform_ok(*self),
            point_ok(p),
        ensures
            r == spec_apply(*self, p),
            point_ok(r),
    {
        proof {
            crate::fx::lemma_abs_mul_le(self.m11 as int, p.x as int, COORD_LIMIT as int, COORD_LIMIT as int);
            crate::fx::lemma_abs_mul_le(self.m21 as int, p.y as int, COORD_LIMIT as int, COORD_LIMIT as int);
            crate::fx::lemma_abs_mul_le(self.m12 as int, p.x as int, COORD_LIMIT as int, COORD_LIMIT as int);
            crate::fx::lemma_abs_mul_le(self.m22 as int, p.y as int, COORD_LIMIT as int, COORD_LIMIT as int);
        }
        let xw: i128 = tdiv128(
            (self.m11 as i128) * (p.x as i128) + (self.m21 as i128) * (p.y as i128),
            FX_ONE as i128,
        ) + (self.m31 as i128);
        let yw: i128 = tdiv128(
            (self.m12 as i128) * (p.x as i128) + (self.m22 as i128) * (p.y as i128),
            FX_ONE as i128,
        ) + (self.m32 as i128);
        PointFx { x: clamp_coord_wide(xw), y: clamp_coord_wide(yw) }
    }

    /// Inverts the transform; `None` exactly when the linear part is
    /// singular.
    pub fn invert(&self) -> (r: Option<Transform>)
        requires
            transform_ok(*self),
        ensures
            r is Some <==> spec_det_raw(*self) != 0,
            r is Some ==> r->Some_0 == spec_invert(*self),
            r is Some ==> transform_ok(r->Some_0),
    {
        proof {
            let cl = COORD_LIMIT as int;
            let one2s = (FX_ONE as int) * (FX_ONE as int);
            crate::fx::lemma_abs_mul_le(self.m11 as int, self.m22 as int, cl, cl);
            crate::fx::lemma_abs_mul_le(self.m12 as int, self.m21 as int, cl, cl);
            crate::fx::lemma_abs_mul_le(self.m11 as int, one2s, cl, one2s);
            crate::fx::lemma_abs_mul_le(self.m12 as int, one2s, cl, one2s);
            crate::fx::lemma_abs_mul_le(self.m21 as int, one2s, cl, one2s);
            crate::fx::lemma_abs_mul_le(self.m22 as int, one2s, cl, one2s);
        }
        let d: i128 = (self.m11 as i128) * (self.m22 as i128)
            - (self.m12 as i128) * (self.m21 as i128);
        if d == 0 {
            None
        } else {
            let one2: i128 = (FX_ONE as i128) * (FX_ONE as i128);
            let i11 = clamp_coord_wide(tdiv128((self.m22 as i128) * one2, d));
            let i12 = clamp_coord_wide(tdiv128(-((self.m12 as i128) * one2), d));
            let i21 = clamp_coord_wide(tdiv128(-((self.m21 as i128) * one2), d));
            let i22 = clamp_coord_wide(tdiv128((self.m11 as i128) * one2, d));
            proof {
                let cl = COORD_LIMIT as int;
                crate::fx::lemma_abs_mul_le(i11 as int, self.m31 as int, cl, cl);
                crate::fx::lemma_abs_mul_le(i21 as int, self.m32 as int, cl, cl);
                crate::fx::lemma_abs_mul_le(i12 as int, self.m31 as int, cl, cl);
                crate::fx::lemma_abs_mul_le(i22 as int, self.m32 as int, cl, cl);
            }
            let m31 = clamp_coord_wide(
                -tdiv128(
                    (i11 as i128) * (self.m31 as i128) + (i21 as i128) * (self.m32 as i128),
                    FX_ONE as i128,
                ),
            );
            let m32 = clamp_coord_wide(
                -tdiv128(
                    (i12 as i128) * (self.m31 as i128) + (i22 as i128) * (self.m32 as i128),
                    FX_ONE as i128,
                ),
            );
            Some(Transform { m11: i11, m12: i12, m21: i21, m22: i22, m31, m32 })
        }
    }
}

} // verus!
