//! Laws of the drawing model, stated and proved over the same spec
//! functions the operations' contracts use.

use vstd::prelude::*;
use crate::color::Color;
use crate::fx::{FX_ONE, FX_HALF, spec_tdiv};
use crate::geom::{RectFx, rect_ok, rect_contains, MAX_DIM};
use crate::options::{LineCap, LineJoin, spec_line_cap_for_join};
use crate::path::PathCmd;
use crate::target::{
    TargetView, MaskView, target_wf, spec_push_clip_model, spec_pop_clip_model,
    spec_mask_bytes, spec_pixel_k, spec_mask_pass, spec_rect_cover,
};
use crate::transform::{Transform, spec_sanitize, spec_invert, spec_det_raw};

verus! {

/// The state after pushing each path of a sequence, in order.
pub open spec fn spec_push_all(v: TargetView, ps: Seq<Seq<PathCmd>>) -> TargetView
    decreases ps.len(),
{
    if ps.len() == 0 {
        v
    } else {
        spec_push_clip_model(spec_push_all(v, ps.drop_last()), ps.last())
    }
}

/// The state after popping the clip stack `n` times.
pub open spec fn spec_pop_n(v: TargetView, n: int) -> TargetView
    decreases n,
{
    if n <= 0 {
        v
    } else {
        spec_pop_n(spec_pop_clip_model(v), n - 1)
    }
}

/// What a run of pushes does to the state: everything but the clip
/// stack and mask is kept, the stack grows by the pushed paths, and a
/// non-empty run leaves the mask rebuilt from the whole stack with the
/// starting transform.
proof fn lemma_push_all_shape(v: TargetView, ps: Seq<Seq<PathCmd>>)
    ensures
        spec_push_all(v, ps).width == v.width,
        spec_push_all(v, ps).height == v.height,
        spec_push_all(v, ps).data == v.data,
        spec_push_all(v, ps).transform == v.transform,
        spec_push_all(v, ps).opacity == v.opacity,
        spec_push_all(v, ps).clip =~= v.clip + ps,
        ps.len() > 0 ==> spec_push_all(v, ps).mask == Option::Some(MaskView {
            built_with: v.transform,
            bytes: spec_mask_bytes(v.clip + ps, v.transform, v.width, v.height),
        }),
        ps.len() == 0 ==> spec_push_all(v, ps) == v,
    decreases ps.len(),
{
    if ps.len() > 0 {
        lemma_push_all_shape(v, ps.drop_last());
        assert((v.clip + ps.drop_last()).push(ps.last()) =~= v.clip + ps);
    }
}

/// Pushing any N distinct or equal non-degenerate clip paths and then
/// popping N times restores the pre-push unclipped state bit for bit.
pub proof fn lemma_clip_push_pop_restores(v: TargetView, ps: Seq<Seq<PathCmd>>)
    requires
        target_wf(v),
        v.clip.len() == 0,
    ensures
        spec_pop_n(spec_push_all(v, ps), ps.len() as int) =~= v,
    decreases ps.len(),
{
    if ps.len() > 0 {
        lemma_push_all_shape(v, ps);
        lemma_push_all_shape(v, ps.drop_last());
        let w = spec_push_all(v, ps);
        let u = spec_push_all(v, ps.drop_last());
        assert(w.clip =~= v.clip + ps);
        assert(w.clip.len() == ps.len());
        assert(w.clip.drop_last() =~= v.clip + ps.drop_last());
        if ps.len() == 1 {
            assert(u == v);
            assert(w.clip.drop_last().len() == 0);
            assert(spec_pop_clip_model(w) =~= v);
        } else {
            assert(spec_pop_clip_model(w) =~= u);
        }
        lemma_clip_push_pop_restores(v, ps.drop_last());
        assert(spec_pop_n(w, ps.len() as int) =~= spec_pop_n(
            spec_pop_clip_model(w),
            ps.len() as int - 1,
        ));
    }
}

/// Division facts about the identity transform's inverse.
proof fn proof_div_facts()
    ensures
        281474976710656int / 4294967296int == 65536int,
        0int / 4294967296int == 0int,
{
    vstd::arithmetic::div_mod::lemma_div_by_multiple(65536, 4294967296);
    assert(65536 * 4294967296 == 281474976710656) by (nonlinear_arith);
    vstd::arithmetic::div_mod::lemma_div_by_multiple(0, 4294967296);
    assert(0 * 4294967296 == 0) by (nonlinear_arith);
}

/// Under the identity transform, a pixel center is covered by a
/// rectangle exactly when the center's fixed-point coordinates lie in
/// the rectangle.
pub proof fn lemma_identity_rect_cover(r: RectFx, px: int, py: int)
    requires
        rect_ok(r),
        0 <= px < MAX_DIM,
        0 <= py < MAX_DIM,
    ensures
        spec_rect_cover(
            Transform { m11: FX_ONE, m12: 0, m21: 0, m22: FX_ONE, m31: 0, m32: 0 },
            r,
            px,
            py,
        ) == rect_contains(r, px * FX_ONE + FX_HALF, py * FX_ONE + FX_HALF),
{
    let t = Transform { m11: FX_ONE, m12: 0, m21: 0, m22: FX_ONE, m31: 0, m32: 0 };
    assert(spec_sanitize(t) == t);
    assert(t.m11 * t.m22 == 4294967296) by (nonlinear_arith)
        requires t.m11 == 65536, t.m22 == 65536;
    assert(t.m12 * t.m21 == 0) by (nonlinear_arith)
        requires t.m12 == 0, t.m21 == 0;
    assert(spec_det_raw(t) == 4294967296);
    let inv = spec_invert(t);
    assert(t.m22 * FX_ONE * FX_ONE == 281474976710656) by (nonlinear_arith)
        requires t.m22 == 65536;
    assert(t.m11 * FX_ONE * FX_ONE == 281474976710656) by (nonlinear_arith)
        requires t.m11 == 65536;
    assert(t.m12 * FX_ONE * FX_ONE == 0) by (nonlinear_arith)
        requires t.m12 == 0;
    assert(t.m21 * FX_ONE * FX_ONE == 0) by (nonlinear_arith)
        requires t.m21 == 0;
    proof_div_facts();
    assert(spec_tdiv(281474976710656, 4294967296) == 65536);
    assert(spec_tdiv(0, 4294967296) == 0);
    assert(inv.m11 == FX_ONE && inv.m12 == 0 && inv.m21 == 0 && inv.m22 == FX_ONE && inv.m31
        == 0 && inv.m32 == 0);
    let cx = px * FX_ONE + FX_HALF;
    let cy = py * FX_ONE + FX_HALF;
    assert(0 <= cx <= 1073741824 && 0 <= cy <= 1073741824) by (nonlinear_arith)
        requires 0 <= px < 16383, 0 <= py < 16383, cx == px * FX_ONE + FX_HALF, cy == py * FX_ONE + FX_HALF;
    assert(spec_tdiv(FX_ONE * cx + 0 * cy, FX_ONE as int) == cx) by (nonlinear_arith)
        requires 0 <= cx;
    assert(spec_tdiv(0 * cx + FX_ONE * cy, FX_ONE as int) == cy) by (nonlinear_arith)
        requires 0 <= cy;
}

/// Clearing a rectangle over an unclipped target with the identity
/// transform turns exactly the pixels inside the rectangle fully
/// transparent and leaves every other pixel unchanged, whatever the
/// buffer held; over a fully opaque buffer the cleared region is
/// therefore exactly the zero-alpha region.
pub proof fn lemma_clear_rect_exact(v0: TargetView, v1: TargetView, r: RectFx)
    requires
        target_wf(v0),
        v0.transform == (Transform { m11: FX_ONE, m12: 0, m21: 0, m22: FX_ONE, m31: 0, m32: 0 }),
        v0.clip.len() == 0,
        rect_ok(r),
        v1.width == v0.width,
        v1.data.len() == v0.data.len(),
        forall|k: int| 0 <= k < v0.width * v0.height ==> #[trigger] spec_pixel_k(v1.data, k)
            == (if spec_rect_cover(v0.transform, r, k % v0.width, k / v0.width)
            && spec_mask_pass(v0, k) {
            Color { r: 0, g: 0, b: 0, a: 0 }
        } else {
            spec_pixel_k(v0.data, k)
        }),
    ensures
        forall|k: int| 0 <= k < v0.width * v0.height ==> #[trigger] spec_pixel_k(v1.data, k)
            == (if rect_contains(
            r,
            (k % v0.width) * FX_ONE + FX_HALF,
            (k / v0.width) * FX_ONE + FX_HALF,
        ) {
            Color { r: 0, g: 0, b: 0, a: 0 }
        } else {
            spec_pixel_k(v0.data, k)
        }),
{
    assert forall|k: int| 0 <= k < v0.width * v0.height implies #[trigger] spec_pixel_k(
        v1.data, k,
    ) == (if rect_contains(
        r,
        (k % v0.width) * FX_ONE + FX_HALF,
        (k / v0.width) * FX_ONE + FX_HALF,
    ) {
        Color { r: 0, g: 0, b: 0, a: 0 }
    } else {
        spec_pixel_k(v0.data, k)
    }) by {
        vstd::arithmetic::div_mod::lemma_mod_bound(k, v0.width);
        vstd::arithmetic::div_mod::lemma_fundamental_div_mod(k, v0.width);
        vstd::arithmetic::div_mod::lemma_div_pos_is_pos(k, v0.width);
        assert(k / v0.width < v0.height) by (nonlinear_arith)
            requires
                k == v0.width * (k / v0.width) + k % v0.width,
                0 <= k % v0.width,
                k < v0.width * v0.height,
                1 <= v0.width,
                0 <= k / v0.width;
        lemma_identity_rect_cover(r, k % v0.width, k / v0.width);
    }
}

/// A synthetic two-point line is stroked with round end caps exactly
/// when the configured line join is round; every other join yields
/// butt caps.
pub proof fn lemma_line_cap_rule(join: LineJoin)
    ensures
        spec_line_cap_for_join(join) == (if join == LineJoin::Round {
            LineCap::Round
        } else {
            LineCap::Butt
        }),
{
}

} // verus!
