//! The draw target: a premultiplied pixel buffer, the active
//! transform, a scalar opacity, and a clip stack with its cached mask.
//!
//! Every drawing operation is specified pixel by pixel: a pixel
//! changes exactly when its center is covered by the operation's
//! geometry and the cached clip mask lets it through, and the new
//! value is the composite of the paint's shader color over the old
//! one.  The mask cache is rebuilt from the whole stack at every clip
//! change, with the transform current at that moment; it goes stale,
//! as the backend's does, if the transform changes afterwards.

use vstd::prelude::*;
use crate::color::Color;
use crate::comp::BlendMode;
use crate::fx::{FX_ONE, COORD_LIMIT, spec_tdiv, tdiv64};
use crate::geom::{PointFx, RectFx, PointI, SizeI, rect_ok, rect_contains, MAX_DIM};
use crate::options::{DrawOptions, StrokeOptions, LineCap, line_cap_for_join, spec_line_cap_for_join, Filter};
use crate::paint::{Paint, GradientStop, GradientStops, paint_wf, create_gradient_stops};
use crate::path::{Path, PathBuilder, PathCmd, cmds_ok};
use crate::raster::{
    SegFx, segs_ok, spec_fill_segs, spec_stroke_segs, spec_covered_path,
    spec_stroke_cover, spec_wind, spec_path_point, spec_shade, spec_composite, flatten_path,
    wind_at, stroke_cover_at, shade, composite_pixel, path_point,
};
use crate::transform::Transform;

verus! {

/// Why a target operation was rejected.
#[derive(Clone, Copy, Debug, PartialEq, Eq, Structural)]
pub enum CanvasError {
    InvalidSize,
    SurfaceTooShort,
}

/// The cached clip mask: the transform it was rasterized with and one
/// alpha byte per pixel.
#[derive(Clone, Debug)]
struct MaskCache {
    built_with: Transform,
    bytes: Vec<u8>,
}

/// The abstract state of the mask cache: the transform it was built
/// with and its alpha bytes.
#[verifier::ext_equal]
pub ghost struct MaskView {
    pub built_with: Transform,
    pub bytes: Seq<u8>,
}

/// The abstract state of a draw target.
#[verifier::ext_equal]
pub ghost struct TargetView {
    pub width: int,
    pub height: int,
    pub data: Seq<u8>,
    pub transform: Transform,
    pub opacity: i64,
    pub clip: Seq<Seq<PathCmd>>,
    pub mask: Option<MaskView>,
}

/// A draw target over an in-memory premultiplied pixel buffer.
#[derive(Clone, Debug)]
pub struct PixmapTarget {
    data: Vec<u8>,
    width: u32,
    height: u32,
    transform: Transform,
    opacity: i64,
    mask_paths: Vec<Path>,
    mask: Option<MaskCache>,
}

impl View for PixmapTarget {
    type V = TargetView;

    closed spec fn view(&self) -> TargetView {
        TargetView {
            width: self.width as int,
            height: self.height as int,
            data: self.data@,
            transform: self.transform,
            opacity: self.opacity,
            clip: self.mask_paths@.map_values(|p: Path| p@),
            mask: match self.mask {
                Option::None => Option::None,
                Option::Some(m) => Option::Some(
                    MaskView { built_with: m.built_with, bytes: m.bytes@ },
                ),
            },
        }
    }
}

/// Whether one clip path covers a pixel center, through the inverse of
/// the given transform.
pub open spec fn spec_clip_covers(cmds: Seq<PathCmd>, t: Transform, px: int, py: int) -> bool {
    match spec_path_point(t, px, py) {
        Option::None => false,
        Option::Some(q) => spec_covered_path(spec_fill_segs(cmds), q),
    }
}

/// Whether every path of a clip stack covers a pixel center.
pub open spec fn spec_all_clips_cover(
    clip: Seq<Seq<PathCmd>>,
    t: Transform,
    px: int,
    py: int,
) -> bool {
    forall|k: int| 0 <= k < clip.len() ==> spec_clip_covers(#[trigger] clip[k], t, px, py)
}

/// The mask bytes a clip stack rasterizes to under a transform.
pub open spec fn spec_mask_bytes(clip: Seq<Seq<PathCmd>>, t: Transform, w: int, h: int) -> Seq<u8> {
    Seq::new((w * h) as nat, |i: int| if spec_all_clips_cover(clip, t, i % w, i / w) {
        255u8
    } else {
        0u8
    })
}

/// The pixel at flat index `k` of a byte buffer.
pub open spec fn spec_pixel_k(data: Seq<u8>, k: int) -> Color {
    Color { r: data[4 * k], g: data[4 * k + 1], b: data[4 * k + 2], a: data[4 * k + 3] }
}

/// Whether the cached mask lets the pixel at flat index `k` through:
/// no mask passes everything.
pub open spec fn spec_mask_pass(v: TargetView, k: int) -> bool {
    match v.mask {
        Option::None => true,
        Option::Some(m) => m.bytes[k] != 0,
    }
}

/// A structurally sound target: positive bounded dimensions, a buffer
/// of exactly four bytes per pixel, bounded clip paths, and a mask
/// cache present exactly when the clip stack is non-empty and equal to
/// the stack's rasterization under its recorded transform.
pub open spec fn target_wf(v: TargetView) -> bool {
    &&& 1 <= v.width <= MAX_DIM
    &&& 1 <= v.height <= MAX_DIM
    &&& v.data.len() == v.width * v.height * 4
    &&& forall|k: int| 0 <= k < v.clip.len() ==> cmds_ok(#[trigger] v.clip[k])
    &&& (v.clip.len() == 0 <==> v.mask is None)
    &&& v.mask is Some ==> v.mask->Some_0.bytes == spec_mask_bytes(
        v.clip, v.mask->Some_0.built_with, v.width, v.height,
    )
}

/// The state after pushing one clip path: the stack grows and the mask
/// is rebuilt from the whole stack with the current transform.
pub open spec fn spec_push_clip_model(v: TargetView, p: Seq<PathCmd>) -> TargetView {
    let clip2 = v.clip.push(p);
    TargetView {
        clip: clip2,
        mask: Option::Some(MaskView {
            built_with: v.transform,
            bytes: spec_mask_bytes(clip2, v.transform, v.width, v.height),
        }),
        ..v
    }
}

/// The state after popping one clip path: the stack shrinks (popping
/// an empty stack is a no-op) and the mask is rebuilt, or dropped when
/// the stack empties.
pub open spec fn spec_pop_clip_model(v: TargetView) -> TargetView {
    let clip2 = if v.clip.len() == 0 {
        v.clip
    } else {
        v.clip.drop_last()
    };
    TargetView {
        clip: clip2,
        mask: if clip2.len() == 0 {
            Option::None
        } else {
            Option::Some(MaskView {
                built_with: v.transform,
                bytes: spec_mask_bytes(clip2, v.transform, v.width, v.height),
            })
        },
        ..v
    }
}

/// Splitting a flat pixel index into its column and row.
proof fn lemma_pixel_split(k: int, w: int, h: int)
    requires
        1 <= w,
        0 <= k < w * h,
    ensures
        0 <= k % w < w,
        0 <= k / w < h,
{
    vstd::arithmetic::div_mod::lemma_mod_bound(k, w);
    vstd::arithmetic::div_mod::lemma_fundamental_div_mod(k, w);
    vstd::arithmetic::div_mod::lemma_div_pos_is_pos(k, w);
    assert(k / w < h) by (nonlinear_arith)
        requires
            k == w * (k / w) + k % w,
            0 <= k % w,
            k < w * h,
            1 <= w,
            0 <= k / w;
}

/// The four segments of an axis-aligned rectangle's outline.
pub open spec fn spec_rect_segs(r: RectFx) -> Seq<SegFx> {
    seq![
        SegFx { a: PointFx { x: r.x, y: r.y }, b: PointFx { x: (r.x + r.w) as i64, y: r.y } },
        SegFx {
            a: PointFx { x: (r.x + r.w) as i64, y: r.y },
            b: PointFx { x: (r.x + r.w) as i64, y: (r.y + r.h) as i64 },
        },
        SegFx {
            a: PointFx { x: (r.x + r.w) as i64, y: (r.y + r.h) as i64 },
            b: PointFx { x: r.x, y: (r.y + r.h) as i64 },
        },
        SegFx { a: PointFx { x: r.x, y: (r.y + r.h) as i64 }, b: PointFx { x: r.x, y: r.y } },
    ]
}

/// Coverage of a pixel center by an axis-aligned rectangle, through
/// the inverse of the target transform.
pub open spec fn spec_rect_cover(t: Transform, r: RectFx, px: int, py: int) -> bool {
    match spec_path_point(t, px, py) {
        Option::None => false,
        Option::Some(q) => rect_contains(r, q.x as int, q.y as int),
    }
}

/// Coverage of a pixel center by a filled polyline, through the
/// inverse of the target transform.
pub open spec fn spec_fill_cover(t: Transform, segs: Seq<SegFx>, px: int, py: int) -> bool {
    match spec_path_point(t, px, py) {
        Option::None => false,
        Option::Some(q) => spec_covered_path(segs, q),
    }
}

/// Coverage of a pixel center by a stroked polyline, through the
/// inverse of the target transform.
pub open spec fn spec_stroke_cover_px(
    t: Transform,
    segs: Seq<SegFx>,
    hw: int,
    cap: LineCap,
    px: int,
    py: int,
) -> bool {
    match spec_path_point(t, px, py) {
        Option::None => false,
        Option::Some(q) => spec_stroke_cover(segs, hw, cap, q),
    }
}

/// The geometry one drawing operation rasterizes.
enum CoverGeom {
    Rect(RectFx),
    Fill(Vec<SegFx>),
    Stroke(Vec<SegFx>, i64, LineCap),
}

/// A geometry within the bounds the coverage tests demand.
spec fn geom_wf(g: CoverGeom) -> bool {
    match g {
        CoverGeom::Rect(r) => rect_ok(r),
        CoverGeom::Fill(v) => segs_ok(v@),
        CoverGeom::Stroke(v, hw, _) => segs_ok(v@) && 0 <= hw <= COORD_LIMIT,
    }
}

/// Coverage of a pixel center by a geometry.
spec fn spec_geom_cover(g: CoverGeom, t: Transform, px: int, py: int) -> bool {
    match g {
        CoverGeom::Rect(r) => spec_rect_cover(t, r, px, py),
        CoverGeom::Fill(v) => spec_fill_cover(t, v@, px, py),
        CoverGeom::Stroke(v, hw, cap) => spec_stroke_cover_px(t, v@, hw as int, cap, px, py),
    }
}

impl PixmapTarget {
    /// A fresh target: a cleared buffer, the identity transform, full
    /// opacity and no clip.
    pub fn new_target(width: u32, height: u32) -> (r: Result<PixmapTarget, CanvasError>)
        ensures
            r is Ok <==> (1 <= width <= MAX_DIM && 1 <= height <= MAX_DIM),
            r is Ok ==> {
                let v = r->Ok_0@;
                &&& v.width == width
                &&& v.height == height
                &&& v.data == Seq::new((width * height * 4) as nat, |i: int| 0u8)
                &&& v.transform == (Transform {
                    m11: FX_ONE,
                    m12: 0,
                    m21: 0,
                    m22: FX_ONE,
                    m31: 0,
                    m32: 0,
                })
                &&& v.opacity == FX_ONE
                &&& v.clip =~= Seq::<Seq<PathCmd>>::empty()
                &&& v.mask is None
                &&& target_wf(v)
            },
    {
        if width < 1 || width > MAX_DIM || height < 1 || height > MAX_DIM {
            return Err(CanvasError::InvalidSize);
        }
        proof {
            assert(width as int * height as int <= 268435456) by (nonlinear_arith)
                requires 1 <= width as int <= 16383, 1 <= height as int <= 16383;
        }
        let n: usize = (width as usize) * (height as usize) * 4;
        let mut data: Vec<u8> = Vec::new();
        let ghost target_len = width as int * height as int * 4;
        for i in 0..n
            invariant
                n == target_len,
                data@.len() == i,
                forall|j: int| 0 <= j < i ==> data@[j] == 0u8,
        {
            data.push(0u8);
        }
        proof {
            assert(data@ =~= Seq::new((width * height * 4) as nat, |i: int| 0u8));
        }
        let t = Ok(PixmapTarget {
            data,
            width,
            height,
            transform: Transform::identity(),
            opacity: FX_ONE,
            mask_paths: Vec::new(),
            mask: None,
        });
        proof {
            assert(t->Ok_0@.clip =~= Seq::<Seq<PathCmd>>::empty());
        }
        t
    }

    /// The target's size in pixels.
    pub fn get_size(&self) -> (r: SizeI)
        requires
            target_wf(self@),
        ensures
            r.width == self@.width,
            r.height == self@.height,
    {
        SizeI { width: self.width as i32, height: self.height as i32 }
    }

    /// The current transform; all six coefficients exactly as last
    /// set.
    pub fn get_transform(&self) -> (r: Transform)
        ensures
            r == self@.transform,
    {
        self.transform
    }

    /// Replaces the transform; all six coefficients round-trip
    /// exactly, and nothing else changes.
    pub fn set_transform(&mut self, matrix: &Transform)
        ensures
            final(self)@ == (TargetView { transform: *matrix, ..old(self)@ }),
    {
        self.transform = *matrix;
    }

    /// The current opacity factor.
    pub fn get_opacity(&self) -> (r: i64)
        ensures
            r == self@.opacity,
    {
        self.opacity
    }

    /// Replaces the opacity factor; the value is stored unclamped, as
    /// given.
    pub fn set_opacity(&mut self, opacity: i64)
        ensures
            final(self)@ == (TargetView { opacity: opacity, ..old(self)@ }),
    {
        self.opacity = opacity;
    }

    /// The raw premultiplied pixel bytes, read-only.
    pub fn snapshot(&self) -> (r: &[u8])
        ensures
            r@ == self@.data,
    {
        self.data.as_slice()
    }

    /// An owned copy of the pixel bytes; later changes to the target
    /// leave the copy untouched.
    pub fn snapshot_data_owned(&self) -> (r: Vec<u8>)
        ensures
            r@ == self@.data,
    {
        self.data.clone()
    }

    /// A fresh path builder.
    pub fn create_path_builder(&self) -> (b: PathBuilder)
        ensures
            b@ =~= Seq::<PathCmd>::empty(),
            !b.spec_done(),
            b.wf(),
    {
        PathBuilder::new()
    }

    /// Gathers gradient stops, keeping the caller's order.
    pub fn create_gradient_stops(&self, gradient_stops: Vec<GradientStop>) -> (r: GradientStops)
        ensures
            r.stops@ == gradient_stops@,
    {
        create_gradient_stops(gradient_stops)
    }

    /// A new target of the given size sharing this target's transform,
    /// opacity and clip state, over a fresh cleared buffer.
    pub fn create_similar_draw_target(&self, size: &SizeI) -> (r: Result<
        PixmapTarget,
        CanvasError,
    >)
        requires
            target_wf(self@),
        ensures
            r is Ok <==> (1 <= size.width <= MAX_DIM && 1 <= size.height <= MAX_DIM),
            r is Ok ==> {
                let v = r->Ok_0@;
                &&& v.width == size.width
                &&& v.height == size.height
                &&& v.data == Seq::new((size.width * size.height * 4) as nat, |i: int| 0u8)
                &&& v.transform == self@.transform
                &&& v.opacity == self@.opacity
                &&& v.clip == self@.clip
                &&& v.mask == self@.mask
            },
    {
        if size.width < 1 || size.width > MAX_DIM as i32 || size.height < 1 || size.height
            > MAX_DIM as i32 {
            return Err(CanvasError::InvalidSize);
        }
        let width = size.width as u32;
        let height = size.height as u32;
        proof {
            assert(width as int * height as int <= 268435456) by (nonlinear_arith)
                requires 1 <= width as int <= 16383, 1 <= height as int <= 16383;
        }
        let n: usize = (width as usize) * (height as usize) * 4;
        let mut data: Vec<u8> = Vec::new();
        let ghost target_len = width as int * height as int * 4;
        for i in 0..n
            invariant
                n == target_len,
                data@.len() == i,
                forall|j: int| 0 <= j < i ==> data@[j] == 0u8,
        {
            data.push(0u8);
        }
        proof {
            assert(data@ =~= Seq::new((width * height * 4) as nat, |i: int| 0u8));
        }
        let mut paths: Vec<Path> = Vec::new();
        let m = self.mask_paths.len();
        for i in 0..m
            invariant
                m == self.mask_paths@.len(),
                paths@.len() == i,
                forall|j: int| 0 <= j < i ==> #[trigger] paths@[j]@ == self.mask_paths@[j]@,
        {
            paths.push(self.mask_paths[i].duplicate());
        }
        let mask = match &self.mask {
            None => None,
            Some(mc) => Some(MaskCache { built_with: mc.built_with, bytes: mc.bytes.clone() }),
        };
        let t = PixmapTarget {
            data,
            width,
            height,
            transform: self.transform,
            opacity: self.opacity,
            mask_paths: paths,
            mask,
        };
        proof {
            assert(t@.clip =~= self@.clip);
            assert(t@.mask == self@.mask);
        }
        Ok(t)
    }

    /// The workhorse of every painting operation: composites the
    /// paint's shader over every pixel whose center the geometry
    /// covers and the cached mask lets through.
    fn apply_paint(&mut self, geom: &CoverGeom, paint: &Paint, mode: BlendMode)
        requires
            target_wf(old(self)@),
            geom_wf(*geom),
            paint_wf(*paint),
        ensures
            final(self)@.width == old(self)@.width,
            final(self)@.height == old(self)@.height,
            final(self)@.transform == old(self)@.transform,
            final(self)@.opacity == old(self)@.opacity,
            final(self)@.clip == old(self)@.clip,
            final(self)@.mask == old(self)@.mask,
            final(self)@.data.len() == old(self)@.data.len(),
            target_wf(final(self)@),
            forall|k: int| 0 <= k < old(self)@.width * old(self)@.height ==> #[trigger] spec_pixel_k(
                final(self)@.data, k,
            ) == (if spec_geom_cover(
                *geom,
                old(self)@.transform,
                k % old(self)@.width,
                k / old(self)@.width,
            ) && spec_mask_pass(old(self)@, k) {
                spec_composite(
                    mode,
                    spec_shade(
                        *paint,
                        old(self)@.opacity as int,
                        k % old(self)@.width,
                        k / old(self)@.width,
                    ),
                    spec_pixel_k(old(self)@.data, k),
                )
            } else {
                spec_pixel_k(old(self)@.data, k)
            }),
    {
        let ghost v0 = self@;
        let w = self.width;
        let h = self.height;
        proof {
            assert(w as int * h as int <= 268435456) by (nonlinear_arith)
                requires 1 <= w as int <= 16383, 1 <= h as int <= 16383;
        }
        let npix: usize = (w as usize) * (h as usize);
        let mut k: usize = 0;
        while k < npix
            invariant
                0 <= k <= npix,
                npix == v0.width * v0.height,
                npix <= 268435456,
                v0.data.len() == 4 * npix,
                w as int == v0.width,
                h as int == v0.height,
                target_wf(v0),
                geom_wf(*geom),
                paint_wf(*paint),
                self@.width == v0.width,
                self@.height == v0.height,
                self@.transform == v0.transform,
                self@.opacity == v0.opacity,
                self@.clip == v0.clip,
                self@.mask == v0.mask,
                self@.data.len() == v0.data.len(),
                forall|j: int| 4 * k <= j < v0.data.len() ==> self@.data[j] == v0.data[j],
                forall|m: int| 0 <= m < k ==> #[trigger] spec_pixel_k(self@.data, m) == (
                if spec_geom_cover(
                    *geom, v0.transform, m % v0.width, m / v0.width,
                ) && spec_mask_pass(v0, m) {
                    spec_composite(
                        mode,
                        spec_shade(*paint, v0.opacity as int, m % v0.width, m / v0.width),
                        spec_pixel_k(v0.data, m),
                    )
                } else {
                    spec_pixel_k(v0.data, m)
                }),
            decreases npix - k,
        {
            proof {
                lemma_pixel_split(k as int, v0.width, v0.height);
            }
            let px: u32 = (k % (w as usize)) as u32;
            let py: u32 = (k / (w as usize)) as u32;
            let covered: bool = match geom {
                CoverGeom::Rect(r) => {
                    match path_point(&self.transform, px, py) {
                        None => false,
                        Some(q) => crate::geom::rect_contains_pt(r, q),
                    }
                },
                CoverGeom::Fill(segs) => {
                    match path_point(&self.transform, px, py) {
                        None => false,
                        Some(q) => wind_at(segs, q) != 0,
                    }
                },
                CoverGeom::Stroke(segs, hw, cap) => {
                    match path_point(&self.transform, px, py) {
                        None => false,
                        Some(q) => stroke_cover_at(segs, *hw, *cap, q),
                    }
                },
            };
            let mask_ok: bool = match &self.mask {
                None => true,
                Some(m) => m.bytes[k] != 0,
            };
            proof {
                let ki = k as int;
                assert(px as int == ki % v0.width);
                assert(py as int == ki / v0.width);
                assert(covered == spec_geom_cover(*geom, v0.transform, ki % v0.width, ki / v0.width));
                assert(mask_ok == spec_mask_pass(v0, ki));
                assert(4 * ki + 3 < v0.data.len());
            }
            let ghost pre = self@.data;
            if covered && mask_ok {
                let s = shade(paint, self.opacity, px, py);
                let d = Color {
                    r: self.data[4 * k],
                    g: self.data[4 * k + 1],
                    b: self.data[4 * k + 2],
                    a: self.data[4 * k + 3],
                };
                let c = composite_pixel(mode, s, d);
                self.data.set(4 * k, c.r);
                self.data.set(4 * k + 1, c.g);
                self.data.set(4 * k + 2, c.b);
                self.data.set(4 * k + 3, c.a);
            }
            proof {
                let ki = k as int;
                if covered && mask_ok {
                    assert(spec_pixel_k(self@.data, ki) == spec_composite(
                        mode,
                        spec_shade(*paint, v0.opacity as int, ki % v0.width, ki / v0.width),
                        spec_pixel_k(v0.data, ki),
                    ));
                } else {
                    assert(spec_pixel_k(self@.data, ki) == spec_pixel_k(v0.data, ki));
                }
                assert forall|m: int| 0 <= m < ki + 1 implies #[trigger] spec_pixel_k(
                    self@.data, m,
                ) == (if spec_geom_cover(
                    *geom, v0.transform, m % v0.width, m / v0.width,
                ) && spec_mask_pass(v0, m) {
                    spec_composite(
                        mode,
                        spec_shade(*paint, v0.opacity as int, m % v0.width, m / v0.width),
                        spec_pixel_k(v0.data, m),
                    )
                } else {
                    spec_pixel_k(v0.data, m)
                }) by {
                    if m < ki {
                        assert(4 * m + 3 < 4 * ki);
                        assert(spec_pixel_k(self@.data, m) == spec_pixel_k(pre, m));
                        assert(spec_pixel_k(pre, m) == (if spec_geom_cover(
                            *geom, v0.transform, m % v0.width, m / v0.width,
                        ) && spec_mask_pass(v0, m) {
                            spec_composite(
                                mode,
                                spec_shade(
                                    *paint, v0.opacity as int, m % v0.width, m / v0.width,
                                ),
                                spec_pixel_k(v0.data, m),
                            )
                        } else {
                            spec_pixel_k(v0.data, m)
                        }));
                    }
                }
                assert forall|j: int| 4 * (ki + 1) <= j < v0.data.len() implies self@.data[j]
                    == pre[j] by {}
            }
            k = k + 1;
        }
    }

    /// Fills an axis-aligned rectangle with a paint under the given
    /// blend mode: exactly the pixels whose centers fall inside the
    /// rectangle, through the current transform and clip mask, are
    /// composited.
    pub fn fill_rect(&mut self, rect: &RectFx, pattern: &Paint, draw_options: &DrawOptions)
        requires
            target_wf(old(self)@),
            rect_ok(*rect),
            paint_wf(*pattern),
        ensures
            final(self)@.width == old(self)@.width,
            final(self)@.height == old(self)@.height,
            final(self)@.transform == old(self)@.transform,
            final(self)@.opacity == old(self)@.opacity,
            final(self)@.clip == old(self)@.clip,
            final(self)@.mask == old(self)@.mask,
            final(self)@.data.len() == old(self)@.data.len(),
            target_wf(final(self)@),
            forall|k: int| 0 <= k < old(self)@.width * old(self)@.height ==> #[trigger] spec_pixel_k(
                final(self)@.data, k,
            ) == (if spec_rect_cover(
                old(self)@.transform, *rect, k % old(self)@.width, k / old(self)@.width,
            ) && spec_mask_pass(old(self)@, k) {
                spec_composite(
                    draw_options.blend_mode,
                    spec_shade(
                        *pattern,
                        old(self)@.opacity as int,
                        k % old(self)@.width,
                        k / old(self)@.width,
                    ),
                    spec_pixel_k(old(self)@.data, k),
                )
            } else {
                spec_pixel_k(old(self)@.data, k)
            }),
    {
        let geom = CoverGeom::Rect(*rect);
        self.apply_paint(&geom, pattern, draw_options.blend_mode);
    }

    /// Clears an axis-aligned rectangle: exactly the pixels whose
    /// centers fall inside the rectangle, through the current
    /// transform and clip mask, become fully transparent.
    pub fn clear_rect(&mut self, rect: &RectFx)
        requires
            target_wf(old(self)@),
            rect_ok(*rect),
        ensures
            final(self)@.width == old(self)@.width,
            final(self)@.height == old(self)@.height,
            final(self)@.transform == old(self)@.transform,
            final(self)@.opacity == old(self)@.opacity,
            final(self)@.clip == old(self)@.clip,
            final(self)@.mask == old(self)@.mask,
            final(self)@.data.len() == old(self)@.data.len(),
            target_wf(final(self)@),
            forall|k: int| 0 <= k < old(self)@.width * old(self)@.height ==> #[trigger] spec_pixel_k(
                final(self)@.data, k,
            ) == (if spec_rect_cover(
                old(self)@.transform, *rect, k % old(self)@.width, k / old(self)@.width,
            ) && spec_mask_pass(old(self)@, k) {
                Color { r: 0, g: 0, b: 0, a: 0 }
            } else {
                spec_pixel_k(old(self)@.data, k)
            }),
    {
        let geom = CoverGeom::Rect(*rect);
        let paint = Paint::Solid(Color::black());
        self.apply_paint(&geom, &paint, BlendMode::Clear);
    }

    /// Fills a path with a paint: exactly the pixels whose centers the
    /// flattened path covers under the non-zero rule, through the
    /// current transform and clip mask, are composited.
    pub fn fill(&mut self, path: &Path, pattern: &Paint, draw_options: &DrawOptions)
        requires
            target_wf(old(self)@),
            path.wf(),
            paint_wf(*pattern),
        ensures
            final(self)@.width == old(self)@.width,
            final(self)@.height == old(self)@.height,
            final(self)@.transform == old(self)@.transform,
            final(self)@.opacity == old(self)@.opacity,
            final(self)@.clip == old(self)@.clip,
            final(self)@.mask == old(self)@.mask,
            final(self)@.data.len() == old(self)@.data.len(),
            target_wf(final(self)@),
            forall|k: int| 0 <= k < old(self)@.width * old(self)@.height ==> #[trigger] spec_pixel_k(
                final(self)@.data, k,
            ) == (if spec_fill_cover(
                old(self)@.transform,
                spec_fill_segs(path@),
                k % old(self)@.width,
                k / old(self)@.width,
            ) && spec_mask_pass(old(self)@, k) {
                spec_composite(
                    draw_options.blend_mode,
                    spec_shade(
                        *pattern,
                        old(self)@.opacity as int,
                        k % old(self)@.width,
                        k / old(self)@.width,
                    ),
                    spec_pixel_k(old(self)@.data, k),
                )
            } else {
                spec_pixel_k(old(self)@.data, k)
            }),
    {
        let segs = flatten_path(path, true);
        let geom = CoverGeom::Fill(segs);
        self.apply_paint(&geom, pattern, draw_options.blend_mode);
    }

    /// Strokes a path with a paint: exactly the pixels whose centers
    /// lie within half the stroke width of the flattened path, with
    /// the configured cap at open ends, are composited.
    pub fn stroke(
        &mut self,
        path: &Path,
        pattern: &Paint,
        stroke_options: &StrokeOptions,
        draw_options: &DrawOptions,
    )
        requires
            target_wf(old(self)@),
            path.wf(),
            paint_wf(*pattern),
            stroke_options.wf(),
        ensures
            final(self)@.width == old(self)@.width,
            final(self)@.height == old(self)@.height,
            final(self)@.transform == old(self)@.transform,
            final(self)@.opacity == old(self)@.opacity,
            final(self)@.clip == old(self)@.clip,
            final(self)@.mask == old(self)@.mask,
            final(self)@.data.len() == old(self)@.data.len(),
            target_wf(final(self)@),
            forall|k: int| 0 <= k < old(self)@.width * old(self)@.height ==> #[trigger] spec_pixel_k(
                final(self)@.data, k,
            ) == (if spec_stroke_cover_px(
                old(self)@.transform,
                spec_stroke_segs(path@),
                spec_tdiv(stroke_options.width as int, 2),
                stroke_options.line_cap,
                k % old(self)@.width,
                k / old(self)@.width,
            ) && spec_mask_pass(old(self)@, k) {
                spec_composite(
                    draw_options.blend_mode,
                    spec_shade(
                        *pattern,
                        old(self)@.opacity as int,
                        k % old(self)@.width,
                        k / old(self)@.width,
                    ),
                    spec_pixel_k(old(self)@.data, k),
                )
            } else {
                spec_pixel_k(old(self)@.data, k)
            }),
    {
        let segs = flatten_path(path, false);
        let hw = tdiv64(stroke_options.width, 2);
        let geom = CoverGeom::Stroke(segs, hw, stroke_options.line_cap);
        self.apply_paint(&geom, pattern, draw_options.blend_mode);
    }

    /// Strokes the outline of an axis-aligned rectangle.
    pub fn stroke_rect(
        &mut self,
        rect: &RectFx,
        pattern: &Paint,
        stroke_options: &StrokeOptions,
        draw_options: &DrawOptions,
    )
        requires
            target_wf(old(self)@),
            rect_ok(*rect),
            paint_wf(*pattern),
            stroke_options.wf(),
        ensures
            final(self)@.width == old(self)@.width,
            final(self)@.height == old(self)@.height,
            final(self)@.transform == old(self)@.transform,
            final(self)@.opacity == old(self)@.opacity,
            final(self)@.clip == old(self)@.clip,
            final(self)@.mask == old(self)@.mask,
            final(self)@.data.len() == old(self)@.data.len(),
            target_wf(final(self)@),
            forall|k: int| 0 <= k < old(self)@.width * old(self)@.height ==> #[trigger] spec_pixel_k(
                final(self)@.data, k,
            ) == (if spec_stroke_cover_px(
                old(self)@.transform,
                spec_rect_segs(*rect),
                spec_tdiv(stroke_options.width as int, 2),
                stroke_options.line_cap,
                k % old(self)@.width,
                k / old(self)@.width,
            ) && spec_mask_pass(old(self)@, k) {
                spec_composite(
                    draw_options.blend_mode,
                    spec_shade(
                        *pattern,
                        old(self)@.opacity as int,
                        k % old(self)@.width,
                        k / old(self)@.width,
                    ),
                    spec_pixel_k(old(self)@.data, k),
                )
            } else {
                spec_pixel_k(old(self)@.data, k)
            }),
    {
        let x1 = rect.x + rect.w;
        let y1 = rect.y + rect.h;
        let mut segs: Vec<SegFx> = Vec::new();
        segs.push(SegFx { a: PointFx { x: rect.x, y: rect.y }, b: PointFx { x: x1, y: rect.y } });
        segs.push(SegFx { a: PointFx { x: x1, y: rect.y }, b: PointFx { x: x1, y: y1 } });
        segs.push(SegFx { a: PointFx { x: x1, y: y1 }, b: PointFx { x: rect.x, y: y1 } });
        segs.push(SegFx { a: PointFx { x: rect.x, y: y1 }, b: PointFx { x: rect.x, y: rect.y } });
        proof {
            assert(segs@ =~= spec_rect_segs(*rect));
        }
        let hw = tdiv64(stroke_options.width, 2);
        let geom = CoverGeom::Stroke(segs, hw, stroke_options.line_cap);
        self.apply_paint(&geom, pattern, draw_options.blend_mode);
    }

    /// Strokes a synthetic two-point line.  The cap is forced: round
    /// when the configured join is round, else butt, whatever cap the
    /// options carry.
    pub fn stroke_line(
        &mut self,
        start: PointFx,
        end: PointFx,
        pattern: &Paint,
        stroke_options: &StrokeOptions,
        draw_options: &DrawOptions,
    )
        requires
            target_wf(old(self)@),
            crate::geom::point_ok(start),
            crate::geom::point_ok(end),
            paint_wf(*pattern),
            stroke_options.wf(),
        ensures
            final(self)@.width == old(self)@.width,
            final(self)@.height == old(self)@.height,
            final(self)@.transform == old(self)@.transform,
            final(self)@.opacity == old(self)@.opacity,
            final(self)@.clip == old(self)@.clip,
            final(self)@.mask == old(self)@.mask,
            final(self)@.data.len() == old(self)@.data.len(),
            target_wf(final(self)@),
            forall|k: int| 0 <= k < old(self)@.width * old(self)@.height ==> #[trigger] spec_pixel_k(
                final(self)@.data, k,
            ) == (if spec_stroke_cover_px(
                old(self)@.transform,
                seq![SegFx { a: start, b: end }],
                spec_tdiv(stroke_options.width as int, 2),
                spec_line_cap_for_join(stroke_options.line_join),
                k % old(self)@.width,
                k / old(self)@.width,
            ) && spec_mask_pass(old(self)@, k) {
                spec_composite(
                    draw_options.blend_mode,
                    spec_shade(
                        *pattern,
                        old(self)@.opacity as int,
                        k % old(self)@.width,
                        k / old(self)@.width,
                    ),
                    spec_pixel_k(old(self)@.data, k),
                )
            } else {
                spec_pixel_k(old(self)@.data, k)
            }),
    {
        let cap = line_cap_for_join(stroke_options.line_join);
        let mut segs: Vec<SegFx> = Vec::new();
        segs.push(SegFx { a: start, b: end });
        proof {
            assert(segs@ =~= seq![SegFx { a: start, b: end }]);
        }
        let hw = tdiv64(stroke_options.width, 2);
        let geom = CoverGeom::Stroke(segs, hw, cap);
        self.apply_paint(&geom, pattern, draw_options.blend_mode);
    }

    /// Copies pixels from a raw surface straight into the buffer at a
    /// destination point: no transform, no clip mask, no blending.
    /// Only the source rectangle's size takes part; a surface shorter
    /// than it declares is rejected, never read out of range.
    pub fn copy_surface(
        &mut self,
        surface: &Vec<u8>,
        source: &crate::geom::RectI,
        destination: &PointI,
    ) -> (r: Result<(), CanvasError>)
        requires
            target_wf(old(self)@),
        ensures
            r is Ok <==> (1 <= source.w <= MAX_DIM && 1 <= source.h <= MAX_DIM
                && surface@.len() >= source.w as int * source.h as int * 4),
            r is Err ==> final(self)@ == old(self)@,
            target_wf(final(self)@),
            r is Ok ==> {
                &&& final(self)@.width == old(self)@.width
                &&& final(self)@.height == old(self)@.height
                &&& final(self)@.transform == old(self)@.transform
                &&& final(self)@.opacity == old(self)@.opacity
                &&& final(self)@.clip == old(self)@.clip
                &&& final(self)@.mask == old(self)@.mask
                &&& final(self)@.data.len() == old(self)@.data.len()
                &&& forall|k: int| 0 <= k < old(self)@.width * old(self)@.height
                    ==> #[trigger] spec_pixel_k(final(self)@.data, k) == (
                if destination.x <= k % old(self)@.width < destination.x + source.w
                    && destination.y <= k / old(self)@.width < destination.y + source.h {
                    spec_pixel_k(
                        surface@,
                        (k / old(self)@.width - destination.y) * source.w + (k % old(
                            self,
                        )@.width - destination.x),
                    )
                } else {
                    spec_pixel_k(old(self)@.data, k)
                })
            },
    {
        if source.w < 1 || source.w > MAX_DIM as i32 || source.h < 1 || source.h
            > MAX_DIM as i32 {
            return Err(CanvasError::InvalidSize);
        }
        let sw: i64 = source.w as i64;
        let sh: i64 = source.h as i64;
        proof {
            assert(sw as int * sh as int <= 268435456) by (nonlinear_arith)
                requires 1 <= sw as int <= 16383, 1 <= sh as int <= 16383;
        }
        if (surface.len() as u64) < (sw as u64) * (sh as u64) * 4 {
            return Err(CanvasError::SurfaceTooShort);
        }
        let ghost v0 = self@;
        let w = self.width;
        let h = self.height;
        proof {
            assert(w as int * h as int <= 268435456) by (nonlinear_arith)
                requires 1 <= w as int <= 16383, 1 <= h as int <= 16383;
        }
        let npix: usize = (w as usize) * (h as usize);
        let dx: i64 = destination.x as i64;
        let dy: i64 = destination.y as i64;
        let mut k: usize = 0;
        while k < npix
            invariant
                0 <= k <= npix,
                npix == v0.width * v0.height,
                npix <= 268435456,
                v0.data.len() == 4 * npix,
                w as int == v0.width,
                h as int == v0.height,
                target_wf(v0),
                sw == source.w,
                sh == source.h,
                1 <= sw <= 16383,
                1 <= sh <= 16383,
                dx == destination.x,
                dy == destination.y,
                surface@.len() >= sw * sh * 4,
                self@.width == v0.width,
                self@.height == v0.height,
                self@.transform == v0.transform,
                self@.opacity == v0.opacity,
                self@.clip == v0.clip,
                self@.mask == v0.mask,
                self@.data.len() == v0.data.len(),
                forall|j: int| 4 * k <= j < v0.data.len() ==> self@.data[j] == v0.data[j],
                forall|m: int| 0 <= m < k ==> #[trigger] spec_pixel_k(self@.data, m) == (
                if dx <= m % v0.width < dx + sw && dy <= m / v0.width < dy + sh {
                    spec_pixel_k(
                        surface@, (m / v0.width - dy) * sw + (m % v0.width - dx),
                    )
                } else {
                    spec_pixel_k(v0.data, m)
                }),
            decreases npix - k,
        {
            proof {
                lemma_pixel_split(k as int, v0.width, v0.height);
            }
            let px: i64 = (k % (w as usize)) as i64;
            let py: i64 = (k / (w as usize)) as i64;
            let inside = dx <= px && px < dx + sw && dy <= py && py < dy + sh;
            let ghost pre = self@.data;
            if inside {
                proof {
                    let si = (py as int - dy) * sw + (px as int - dx);
                    assert(0 <= (py as int - dy) * (sw as int) && 0 <= si && si + 1 <= sw * sh
                        && sw * sh <= 268435456) by (nonlinear_arith)
                        requires
                            0 <= px as int - dx,
                            px as int - dx < sw,
                            0 <= py as int - dy,
                            py as int - dy < sh,
                            1 <= sw <= 16383,
                            1 <= sh <= 16383,
                            si == (py as int - dy) * sw + (px as int - dx);
                    assert(4 * si + 3 < 4 * (sw * sh)) by (nonlinear_arith)
                        requires si + 1 <= sw * sh;
                }
                let si: usize = ((py - dy) * sw + (px - dx)) as usize;
                let c = Color {
                    r: surface[4 * si],
                    g: surface[4 * si + 1],
                    b: surface[4 * si + 2],
                    a: surface[4 * si + 3],
                };
                self.data.set(4 * k, c.r);
                self.data.set(4 * k + 1, c.g);
                self.data.set(4 * k + 2, c.b);
                self.data.set(4 * k + 3, c.a);
            }
            proof {
                let ki = k as int;
                assert forall|m: int| 0 <= m < ki + 1 implies #[trigger] spec_pixel_k(
                    self@.data, m,
                ) == (if dx <= m % v0.width < dx + sw && dy <= m / v0.width < dy + sh {
                    spec_pixel_k(
                        surface@, (m / v0.width - dy) * sw + (m % v0.width - dx),
                    )
                } else {
                    spec_pixel_k(v0.data, m)
                }) by {
                    if m < ki {
                        assert(4 * m + 3 < 4 * ki);
                        assert(spec_pixel_k(self@.data, m) == spec_pixel_k(pre, m));
                        assert(spec_pixel_k(pre, m) == (if dx <= m % v0.width < dx + sw && dy
                            <= m / v0.width < dy + sh {
                            spec_pixel_k(
                                surface@, (m / v0.width - dy) * sw + (m % v0.width - dx),
                            )
                        } else {
                            spec_pixel_k(v0.data, m)
                        }));
                    } else {
                        assert(px as int == ki % v0.width);
                        assert(py as int == ki / v0.width);
                        if inside {
                            assert(spec_pixel_k(self@.data, ki) == spec_pixel_k(
                                surface@,
                                (ki / v0.width - dy) * sw + (ki % v0.width - dx),
                            ));
                        } else {
                            assert(spec_pixel_k(self@.data, ki) == spec_pixel_k(v0.data, ki));
                        }
                    }
                }
                assert forall|j: int| 4 * (ki + 1) <= j < v0.data.len() implies self@.data[j]
                    == pre[j] by {}
            }
            k = k + 1;
        }
        Ok(())
    }

    /// Draws a scaled surface into a destination rectangle: the blit
    /// is a rectangle fill with an image-pattern paint whose transform
    /// maps the source pixels onto the destination rectangle.  Only
    /// the source rectangle's size takes part; a surface shorter than
    /// it declares is rejected, never read out of range.
    pub fn draw_surface(
        &mut self,
        surface: &Vec<u8>,
        dest: &RectFx,
        source: &RectFx,
        _filter: Filter,
        draw_options: &DrawOptions,
    ) -> (r: Result<(), CanvasError>)
        requires
            target_wf(old(self)@),
            rect_ok(*dest),
            rect_ok(*source),
        ensures
            r is Ok <==> (1 <= spec_tdiv(source.w as int, FX_ONE as int) <= MAX_DIM
                && 1 <= spec_tdiv(source.h as int, FX_ONE as int) <= MAX_DIM
                && surface@.len() >= spec_tdiv(source.w as int, FX_ONE as int) * spec_tdiv(
                source.h as int, FX_ONE as int,
            ) * 4),
            r is Err ==> final(self)@ == old(self)@,
            target_wf(final(self)@),
            r is Ok ==> {
                let sw = spec_tdiv(source.w as int, FX_ONE as int);
                let sh = spec_tdiv(source.h as int, FX_ONE as int);
                let pt = Transform {
                    m11: spec_tdiv(dest.w as int, sw) as i64,
                    m12: 0,
                    m21: 0,
                    m22: spec_tdiv(dest.h as int, sh) as i64,
                    m31: dest.x,
                    m32: dest.y,
                };
                &&& final(self)@.width == old(self)@.width
                &&& final(self)@.height == old(self)@.height
                &&& final(self)@.transform == old(self)@.transform
                &&& final(self)@.opacity == old(self)@.opacity
                &&& final(self)@.clip == old(self)@.clip
                &&& final(self)@.mask == old(self)@.mask
                &&& final(self)@.data.len() == old(self)@.data.len()
                &&& forall|k: int| 0 <= k < old(self)@.width * old(self)@.height
                    ==> #[trigger] spec_pixel_k(final(self)@.data, k) == (
                if spec_rect_cover(
                    old(self)@.transform, *dest, k % old(self)@.width, k / old(self)@.width,
                ) && spec_mask_pass(old(self)@, k) {
                    spec_composite(
                        draw_options.blend_mode,
                        match spec_path_point(pt, k % old(self)@.width, k / old(self)@.width) {
                            Option::None => Color { r: 0, g: 0, b: 0, a: 0 },
                            Option::Some(q) => crate::raster::spec_scale_color(
                                crate::raster::spec_sample_surface(surface@, sw, sh, q),
                                old(self)@.opacity as int,
                            ),
                        },
                        spec_pixel_k(old(self)@.data, k),
                    )
                } else {
                    spec_pixel_k(old(self)@.data, k)
                })
            },
    {
        let sw = tdiv64(source.w, FX_ONE);
        let sh = tdiv64(source.h, FX_ONE);
        if sw < 1 || sw > MAX_DIM as i64 || sh < 1 || sh > MAX_DIM as i64 {
            return Err(CanvasError::InvalidSize);
        }
        proof {
            assert(sw as int * sh as int <= 268435456) by (nonlinear_arith)
                requires 1 <= sw as int <= 16383, 1 <= sh as int <= 16383;
        }
        if (surface.len() as u64) < (sw as u64) * (sh as u64) * 4 {
            return Err(CanvasError::SurfaceTooShort);
        }
        let pt = Transform {
            m11: tdiv64(dest.w, sw),
            m12: 0,
            m21: 0,
            m22: tdiv64(dest.h, sh),
            m31: dest.x,
            m32: dest.y,
        };
        let paint = Paint::Surface(crate::paint::SurfacePaint {
            data: surface.clone(),
            width: sw as u32,
            height: sh as u32,
            transform: pt,
        });
        let geom = CoverGeom::Rect(*dest);
        self.apply_paint(&geom, &paint, draw_options.blend_mode);
        Ok(())
    }

    /// Rebuilds the cached mask from the whole clip stack with the
    /// current transform, or drops it when the stack is empty.
    fn rebuild_mask(&mut self)
        requires
            1 <= old(self)@.width <= MAX_DIM,
            1 <= old(self)@.height <= MAX_DIM,
            forall|k: int| 0 <= k < old(self)@.clip.len() ==> cmds_ok(#[trigger] old(self)@.clip[k]),
        ensures
            final(self)@.width == old(self)@.width,
            final(self)@.height == old(self)@.height,
            final(self)@.data == old(self)@.data,
            final(self)@.transform == old(self)@.transform,
            final(self)@.opacity == old(self)@.opacity,
            final(self)@.clip == old(self)@.clip,
            final(self)@.mask == (if old(self)@.clip.len() == 0 {
                Option::<MaskView>::None
            } else {
                Option::Some(MaskView {
                    built_with: old(self)@.transform,
                    bytes: spec_mask_bytes(
                        old(self)@.clip,
                        old(self)@.transform,
                        old(self)@.width,
                        old(self)@.height,
                    ),
                })
            }),
    {
        let ghost v0 = self@;
        let n = self.mask_paths.len();
        if n == 0 {
            self.mask = None;
            return;
        }
        let mut flats: Vec<Vec<SegFx>> = Vec::new();
        for i in 0..n
            invariant
                n == self.mask_paths@.len(),
                self@ == v0,
                1 <= v0.width <= MAX_DIM,
                1 <= v0.height <= MAX_DIM,
                forall|k: int| 0 <= k < v0.clip.len() ==> cmds_ok(#[trigger] v0.clip[k]),
                flats@.len() == i,
                forall|j: int| 0 <= j < i ==> (#[trigger] flats@[j])@ == spec_fill_segs(
                    v0.clip[j],
                ) && segs_ok(flats@[j]@),
        {
            proof {
                assert(v0.clip[i as int] == self.mask_paths@[i as int]@);
            }
            let f = flatten_path(&self.mask_paths[i], true);
            flats.push(f);
        }
        let w = self.width;
        let h = self.height;
        proof {
            assert(w as int * h as int <= 268435456) by (nonlinear_arith)
                requires 1 <= w as int <= 16383, 1 <= h as int <= 16383;
        }
        let npix: usize = (w as usize) * (h as usize);
        let mut bytes: Vec<u8> = Vec::new();
        let mut k: usize = 0;
        let ghost target_bytes = spec_mask_bytes(v0.clip, v0.transform, v0.width, v0.height);
        while k < npix
            invariant
                0 <= k <= npix,
                npix == v0.width * v0.height,
                npix <= 268435456,
                w as int == v0.width,
                h as int == v0.height,
                1 <= v0.width <= MAX_DIM,
                1 <= v0.height <= MAX_DIM,
                self@ == v0,
                n == v0.clip.len(),
                1 <= n,
                flats@.len() == n,
                forall|j: int| 0 <= j < n ==> (#[trigger] flats@[j])@ == spec_fill_segs(
                    v0.clip[j],
                ) && segs_ok(flats@[j]@),
                target_bytes == spec_mask_bytes(v0.clip, v0.transform, v0.width, v0.height),
                bytes@.len() == k,
                forall|m: int| 0 <= m < k ==> bytes@[m] == target_bytes[m],
            decreases npix - k,
        {
            proof {
                lemma_pixel_split(k as int, v0.width, v0.height);
            }
            let px: u32 = (k % (w as usize)) as u32;
            let py: u32 = (k / (w as usize)) as u32;
            let mut all: bool = true;
            match path_point(&self.transform, px, py) {
                None => {
                    all = false;
                    proof {
                        assert(!spec_clip_covers(v0.clip[0], v0.transform, px as int, py as int));
                        assert(!spec_all_clips_cover(v0.clip, v0.transform, px as int, py as int));
                    }
                },
                Some(q) => {
                    let mut j: usize = 0;
                    while j < n
                        invariant
                            0 <= j <= n,
                            n == v0.clip.len(),
                            flats@.len() == n,
                            self@ == v0,
                            crate::geom::point_ok(q),
                            spec_path_point(v0.transform, px as int, py as int)
                                == Option::Some(q),
                            forall|c: int| 0 <= c < n ==> (#[trigger] flats@[c])@
                                == spec_fill_segs(v0.clip[c]) && segs_ok(flats@[c]@),
                            all == (forall|c: int| 0 <= c < j ==> spec_clip_covers(
                                #[trigger] v0.clip[c], v0.transform, px as int, py as int,
                            )),
                        decreases n - j,
                    {
                        let wv = wind_at(&flats[j], q);
                        proof {
                            assert(spec_clip_covers(
                                v0.clip[j as int], v0.transform, px as int, py as int,
                            ) == (spec_wind(spec_fill_segs(v0.clip[j as int]), q) != 0));
                        }
                        if wv == 0 {
                            all = false;
                        }
                        j = j + 1;
                    }
                    proof {
                        assert(all == spec_all_clips_cover(
                            v0.clip, v0.transform, px as int, py as int,
                        ));
                    }
                },
            }
            bytes.push(if all { 255 } else { 0 });
            proof {
                assert(bytes@[k as int] == target_bytes[k as int]);
            }
            k = k + 1;
        }
        self.mask = Some(MaskCache { built_with: self.transform, bytes });
        proof {
            assert(self@.mask->Some_0.bytes =~= target_bytes);
            assert(self@.mask == Option::Some(MaskView {
                built_with: v0.transform,
                bytes: target_bytes,
            }));
        }
    }

    /// Pushes a path onto the clip stack and rebuilds the cached mask
    /// as the rasterized intersection of every path on the stack.
    pub fn push_clip(&mut self, path: &Path)
        requires
            target_wf(old(self)@),
            path.wf(),
        ensures
            final(self)@ =~= spec_push_clip_model(old(self)@, path@),
            target_wf(final(self)@),
    {
        let ghost v0 = self@;
        self.mask_paths.push(path.duplicate());
        proof {
            assert(self@.clip =~= v0.clip.push(path@));
            assert(self@.width == v0.width && self@.height == v0.height);
        }
        self.rebuild_mask();
        proof {
            assert(final(self)@ =~= spec_push_clip_model(v0, path@));
        }
    }

    /// Pops the top path off the clip stack (a no-op on an empty
    /// stack) and rebuilds or drops the cached mask.
    pub fn pop_clip(&mut self)
        requires
            target_wf(old(self)@),
        ensures
            final(self)@ =~= spec_pop_clip_model(old(self)@),
            target_wf(final(self)@),
    {
        let ghost v0 = self@;
        let _ = self.mask_paths.pop();
        proof {
            if v0.clip.len() == 0 {
                assert(self@.clip =~= v0.clip);
            } else {
                assert(self@.clip =~= v0.clip.drop_last());
            }
        }
        self.rebuild_mask();
        proof {
            assert(final(self)@ =~= spec_pop_clip_model(v0));
        }
    }

    /// Text filling is a stub: the buffer and the whole state stay
    /// untouched.
    pub fn fill_text(&mut self, _text: &str, _start: PointFx, _pattern: &Paint, _draw_options: &DrawOptions)
        ensures
            final(self)@ == old(self)@,
    {
    }

    /// Shadow-compositing surfaces is unsupported in this backend: a
    /// no-op by design, so no pixels are produced at all; callers that
    /// need a diagnostic emit it at the boundary.
    pub fn draw_surface_with_shadow(&self, _surface: &Vec<u8>, _dest: &PointFx, _color: &Color, _offset: &PointFx, _sigma: i64, _operator: BlendMode)
    {
    }
}

} // verus!
