//! The pixel model: compositing, shading, and coverage.
//!
//! Coverage is decided by inverse-mapping each pixel center into path
//! space, so it is exact under the identity transform and well defined
//! under any invertible one; a singular transform draws nothing.  The
//! Porter-Duff composites and the simple separable blends follow the
//! usual premultiplied formulas on 8-bit channels; the remaining blend
//! formulas are collapsed to source-over at this granularity, and
//! every channel is clamped into range.

use vstd::prelude::*;
use crate::color::{Color, spec_premul_channel, premul_channel};
use crate::comp::BlendMode;
use crate::fx::{
    FX_ONE, FX_HALF, COORD_LIMIT, spec_tdiv, tdiv64, tdiv128, lemma_abs_mul_le,
    lemma_tdiv_abs_le,
};
use crate::geom::{PointFx, MAX_DIM};
use crate::path::PathCmd;
use crate::paint::{Paint, GradientStop, paint_wf};
use crate::transform::{Transform, spec_sanitize, spec_invert, spec_det_raw, spec_apply};

verus! {

/// A channel value clamped into the 8-bit range.
pub open spec fn spec_clamp255(x: int) -> u8 {
    if x < 0 {
        0
    } else if x > 255 {
        255
    } else {
        x as u8
    }
}

/// Clamps a channel value into the 8-bit range.
pub fn clamp255(x: i64) -> (r: u8)
    ensures
        r == spec_clamp255(x as int),
{
    if x < 0 {
        0
    } else if x > 255 {
        255
    } else {
        x as u8
    }
}

/// One composited channel, before clamping, on premultiplied values.
pub open spec fn spec_chan(mode: BlendMode, sc: u8, dc: u8, sa: u8, da: u8) -> int {
    let ids = (255 - sa) as u8;
    let idd = (255 - da) as u8;
    match mode {
        BlendMode::Clear => 0,
        BlendMode::Source => sc as int,
        BlendMode::SourceOver => sc + spec_premul_channel(dc, ids),
        BlendMode::DestinationOver => dc + spec_premul_channel(sc, idd),
        BlendMode::SourceIn => spec_premul_channel(sc, da) as int,
        BlendMode::DestinationIn => spec_premul_channel(dc, sa) as int,
        BlendMode::SourceOut => spec_premul_channel(sc, idd) as int,
        BlendMode::DestinationOut => spec_premul_channel(dc, ids) as int,
        BlendMode::SourceAtop => spec_premul_channel(sc, da) + spec_premul_channel(dc, ids),
        BlendMode::DestinationAtop => spec_premul_channel(dc, sa) + spec_premul_channel(sc, idd),
        BlendMode::Xor => spec_premul_channel(sc, idd) + spec_premul_channel(dc, ids),
        BlendMode::Plus => sc + dc,
        BlendMode::Multiply => spec_premul_channel(sc, dc) + spec_premul_channel(sc, idd)
            + spec_premul_channel(dc, ids),
        BlendMode::Screen => sc + dc - spec_premul_channel(sc, dc),
        BlendMode::Darken => sc + dc - spec_max_u8(
            spec_premul_channel(sc, da),
            spec_premul_channel(dc, sa),
        ),
        BlendMode::Lighten => sc + dc - spec_min_u8(
            spec_premul_channel(sc, da),
            spec_premul_channel(dc, sa),
        ),
        BlendMode::Difference => sc + dc - 2 * spec_min_u8(
            spec_premul_channel(sc, da),
            spec_premul_channel(dc, sa),
        ),
        BlendMode::Exclusion => sc + dc - 2 * (spec_premul_channel(sc, dc) as int),
        BlendMode::Overlay => sc + spec_premul_channel(dc, ids),
        BlendMode::HardLight => sc + spec_premul_channel(dc, ids),
        BlendMode::SoftLight => sc + spec_premul_channel(dc, ids),
        BlendMode::ColorDodge => sc + spec_premul_channel(dc, ids),
        BlendMode::ColorBurn => sc + spec_premul_channel(dc, ids),
        BlendMode::Hue => sc + spec_premul_channel(dc, ids),
        BlendMode::Saturation => sc + spec_premul_channel(dc, ids),
        BlendMode::Color => sc + spec_premul_channel(dc, ids),
        BlendMode::Luminosity => sc + spec_premul_channel(dc, ids),
    }
}

/// The larger of two channel values.
pub open spec fn spec_max_u8(a: u8, b: u8) -> int {
    if a >= b { a as int } else { b as int }
}

/// The smaller of two channel values.
pub open spec fn spec_min_u8(a: u8, b: u8) -> int {
    if a <= b { a as int } else { b as int }
}

/// The composited alpha: the channel formula for the composites, the
/// source-over union for every blend formula.
pub open spec fn spec_alpha_chan(mode: BlendMode, sa: u8, da: u8) -> int {
    match mode {
        BlendMode::Multiply | BlendMode::Screen | BlendMode::Overlay | BlendMode::Darken
            | BlendMode::Lighten | BlendMode::ColorDodge | BlendMode::ColorBurn
            | BlendMode::HardLight | BlendMode::SoftLight | BlendMode::Difference
            | BlendMode::Exclusion | BlendMode::Hue | BlendMode::Saturation | BlendMode::Color
            | BlendMode::Luminosity => sa + da - spec_premul_channel(sa, da),
        _ => spec_chan(mode, sa, da, sa, da),
    }
}

/// The composite of a source over a destination pixel.
pub open spec fn spec_composite(mode: BlendMode, s: Color, d: Color) -> Color {
    Color {
        r: spec_clamp255(spec_chan(mode, s.r, d.r, s.a, d.a)),
        g: spec_clamp255(spec_chan(mode, s.g, d.g, s.a, d.a)),
        b: spec_clamp255(spec_chan(mode, s.b, d.b, s.a, d.a)),
        a: spec_clamp255(spec_alpha_chan(mode, s.a, d.a)),
    }
}

/// Computes one composited channel.
fn chan(mode: BlendMode, sc: u8, dc: u8, sa: u8, da: u8) -> (r: i64)
    ensures
        r == spec_chan(mode, sc, dc, sa, da),
{
    let ids: u8 = 255 - sa;
    let idd: u8 = 255 - da;
    let sc64 = sc as i64;
    let dc64 = dc as i64;
    match mode {
        BlendMode::Clear => 0,
        BlendMode::Source => sc64,
        BlendMode::SourceOver => sc64 + premul_channel(dc, ids) as i64,
        BlendMode::DestinationOver => dc64 + premul_channel(sc, idd) as i64,
        BlendMode::SourceIn => premul_channel(sc, da) as i64,
        BlendMode::DestinationIn => premul_channel(dc, sa) as i64,
        BlendMode::SourceOut => premul_channel(sc, idd) as i64,
        BlendMode::DestinationOut => premul_channel(dc, ids) as i64,
        BlendMode::SourceAtop => premul_channel(sc, da) as i64 + premul_channel(dc, ids) as i64,
        BlendMode::DestinationAtop => premul_channel(dc, sa) as i64 + premul_channel(
            sc,
            idd,
        ) as i64,
        BlendMode::Xor => premul_channel(sc, idd) as i64 + premul_channel(dc, ids) as i64,
        BlendMode::Plus => sc64 + dc64,
        BlendMode::Multiply => premul_channel(sc, dc) as i64 + premul_channel(sc, idd) as i64
            + premul_channel(dc, ids) as i64,
        BlendMode::Screen => sc64 + dc64 - premul_channel(sc, dc) as i64,
        BlendMode::Darken => {
            let x = premul_channel(sc, da);
            let y = premul_channel(dc, sa);
            sc64 + dc64 - (if x >= y { x } else { y }) as i64
        },
        BlendMode::Lighten => {
            let x = premul_channel(sc, da);
            let y = premul_channel(dc, sa);
            sc64 + dc64 - (if x <= y { x } else { y }) as i64
        },
        BlendMode::Difference => {
            let x = premul_channel(sc, da);
            let y = premul_channel(dc, sa);
            sc64 + dc64 - 2 * (if x <= y { x } else { y }) as i64
        },
        BlendMode::Exclusion => sc64 + dc64 - 2 * premul_channel(sc, dc) as i64,
        BlendMode::Overlay => sc64 + premul_channel(dc, ids) as i64,
        BlendMode::HardLight => sc64 + premul_channel(dc, ids) as i64,
        BlendMode::SoftLight => sc64 + premul_channel(dc, ids) as i64,
        BlendMode::ColorDodge => sc64 + premul_channel(dc, ids) as i64,
        BlendMode::ColorBurn => sc64 + premul_channel(dc, ids) as i64,
        BlendMode::Hue => sc64 + premul_channel(dc, ids) as i64,
        BlendMode::Saturation => sc64 + premul_channel(dc, ids) as i64,
        BlendMode::Color => sc64 + premul_channel(dc, ids) as i64,
        BlendMode::Luminosity => sc64 + premul_channel(dc, ids) as i64,
    }
}

/// Whether a mode is one of the blend formulas (their alpha is always
/// the source-over union).
fn is_blend(mode: BlendMode) -> (r: bool)
    ensures
        r == match mode {
            BlendMode::Multiply | BlendMode::Screen | BlendMode::Overlay | BlendMode::Darken
                | BlendMode::Lighten | BlendMode::ColorDodge | BlendMode::ColorBurn
                | BlendMode::HardLight | BlendMode::SoftLight | BlendMode::Difference
                | BlendMode::Exclusion | BlendMode::Hue | BlendMode::Saturation
                | BlendMode::Color | BlendMode::Luminosity => true,
            _ => false,
        },
{
    match mode {
        BlendMode::Multiply | BlendMode::Screen | BlendMode::Overlay | BlendMode::Darken
            | BlendMode::Lighten | BlendMode::ColorDodge | BlendMode::ColorBurn
            | BlendMode::HardLight | BlendMode::SoftLight | BlendMode::Difference
            | BlendMode::Exclusion | BlendMode::Hue | BlendMode::Saturation | BlendMode::Color
            | BlendMode::Luminosity => true,
        _ => false,
    }
}

/// Composites a source pixel over a destination pixel.
pub fn composite_pixel(mode: BlendMode, s: Color, d: Color) -> (r: Color)
    ensures
        r == spec_composite(mode, s, d),
{
    let a: i64 = if is_blend(mode) {
        s.a as i64 + d.a as i64 - premul_channel(s.a, d.a) as i64
    } else {
        chan(mode, s.a, d.a, s.a, d.a)
    };
    Color {
        r: clamp255(chan(mode, s.r, d.r, s.a, d.a)),
        g: clamp255(chan(mode, s.g, d.g, s.a, d.a)),
        b: clamp255(chan(mode, s.b, d.b, s.a, d.a)),
        a: clamp255(a),
    }
}

/// A fixed-point factor clamped into `[0, 1]`.
pub open spec fn spec_clamp01(v: int) -> int {
    if v < 0 {
        0
    } else if v > FX_ONE {
        FX_ONE as int
    } else {
        v
    }
}

/// One channel scaled by a `[0, 1]` fixed-point factor.
pub open spec fn spec_scale_channel(c: u8, f: int) -> u8 {
    ((c as int * f) / (FX_ONE as int)) as u8
}

/// A premultiplied color scaled by a clamped opacity factor.
pub open spec fn spec_scale_color(c: Color, opacity: int) -> Color {
    let f = spec_clamp01(opacity);
    Color {
        r: spec_scale_channel(c.r, f),
        g: spec_scale_channel(c.g, f),
        b: spec_scale_channel(c.b, f),
        a: spec_scale_channel(c.a, f),
    }
}

/// Scales one channel by a `[0, 1]` fixed-point factor.
fn scale_channel(c: u8, f: i64) -> (r: u8)
    requires
        0 <= f <= FX_ONE,
    ensures
        r == spec_scale_channel(c, f as int),
        r <= c,
{
    proof {
        lemma_abs_mul_le(c as int, f as int, 255, FX_ONE as int);
        assert((c as int * f as int) / (FX_ONE as int) <= c as int) by (nonlinear_arith)
            requires 0 <= f <= FX_ONE, 0 <= c;
        vstd::arithmetic::div_mod::lemma_div_pos_is_pos(c as int * f as int, FX_ONE as int);
    }
    ((c as i64 * f) / FX_ONE) as u8
}

/// Scales a premultiplied color by an opacity factor; the factor is
/// clamped into `[0, 1]` first.
pub fn scale_color(c: Color, opacity: i64) -> (r: Color)
    ensures
        r == spec_scale_color(c, opacity as int),
{
    let f: i64 = if opacity < 0 {
        0
    } else if opacity > FX_ONE {
        FX_ONE
    } else {
        opacity
    };
    Color {
        r: scale_channel(c.r, f),
        g: scale_channel(c.g, f),
        b: scale_channel(c.b, f),
        a: scale_channel(c.a, f),
    }
}

/// A line segment in path space.
#[derive(Clone, Copy, Debug, PartialEq, Eq, Structural)]
pub struct SegFx {
    pub a: PointFx,
    pub b: PointFx,
}

/// Both endpoints lie within the coordinate bound.
pub open spec fn seg_ok(s: SegFx) -> bool {
    crate::geom::point_ok(s.a) && crate::geom::point_ok(s.b)
}

/// Every segment of the sequence is within bounds.
pub open spec fn segs_ok(s: Seq<SegFx>) -> bool {
    forall|i: int| 0 <= i < s.len() ==> seg_ok(#[trigger] s[i])
}

/// A quadratic curve evaluated at parameter `j / 16`, by the Bernstein
/// weights on the fixed-point grid.
pub open spec fn spec_quad_point(p0: PointFx, c: PointFx, p1: PointFx, j: int) -> PointFx {
    let w0 = (16 - j) * (16 - j);
    let w1 = 2 * j * (16 - j);
    let w2 = j * j;
    PointFx {
        x: spec_tdiv(w0 * p0.x + w1 * c.x + w2 * p1.x, 256) as i64,
        y: spec_tdiv(w0 * p0.y + w1 * c.y + w2 * p1.y, 256) as i64,
    }
}

/// A cubic curve evaluated at parameter `j / 16`.
pub open spec fn spec_cubic_point(p0: PointFx, c1: PointFx, c2: PointFx, p1: PointFx, j: int) -> PointFx {
    let u = 16 - j;
    let w0 = u * u * u;
    let w1 = 3 * j * u * u;
    let w2 = 3 * j * j * u;
    let w3 = j * j * j;
    PointFx {
        x: spec_tdiv(w0 * p0.x + w1 * c1.x + w2 * c2.x + w3 * p1.x, 4096) as i64,
        y: spec_tdiv(w0 * p0.y + w1 * c1.y + w2 * c2.y + w3 * p1.y, 4096) as i64,
    }
}

/// The sixteen chords a quadratic curve is flattened into.
pub open spec fn spec_quad_segs(p0: PointFx, c: PointFx, p1: PointFx) -> Seq<SegFx> {
    Seq::new(16, |j: int| SegFx {
        a: spec_quad_point(p0, c, p1, j),
        b: spec_quad_point(p0, c, p1, j + 1),
    })
}

/// The sixteen chords a cubic curve is flattened into.
pub open spec fn spec_cubic_segs(p0: PointFx, c1: PointFx, c2: PointFx, p1: PointFx) -> Seq<SegFx> {
    Seq::new(16, |j: int| SegFx {
        a: spec_cubic_point(p0, c1, c2, p1, j),
        b: spec_cubic_point(p0, c1, c2, p1, j + 1),
    })
}

/// The polyline a command sequence flattens to, from command `i` on,
/// given the current point, the subpath start and whether a subpath is
/// open.  With `close_tail` every open subpath is closed implicitly,
/// as filling demands; without it only explicit `Close` commands close,
/// as stroking demands.
pub open spec fn spec_flatten_from(
    s: Seq<PathCmd>,
    i: int,
    cur: PointFx,
    start: PointFx,
    active: bool,
    close_tail: bool,
) -> Seq<SegFx>
    decreases s.len() - i,
    when i <= s.len()
{
    if i < 0 || i >= s.len() {
        if active && close_tail {
            seq![SegFx { a: cur, b: start }]
        } else {
            Seq::<SegFx>::empty()
        }
    } else {
        match s[i] {
            PathCmd::MoveTo(p) => (if active && close_tail {
                seq![SegFx { a: cur, b: start }]
            } else {
                Seq::<SegFx>::empty()
            }) + spec_flatten_from(s, i + 1, p, p, true, close_tail),
            PathCmd::LineTo(p) => if active {
                seq![SegFx { a: cur, b: p }] + spec_flatten_from(s, i + 1, p, start, true, close_tail)
            } else {
                spec_flatten_from(s, i + 1, p, p, true, close_tail)
            },
            PathCmd::QuadTo(c1, p) => if active {
                spec_quad_segs(cur, c1, p) + spec_flatten_from(s, i + 1, p, start, true, close_tail)
            } else {
                spec_flatten_from(s, i + 1, p, p, true, close_tail)
            },
            PathCmd::CubicTo(c1, c2, p) => if active {
                spec_cubic_segs(cur, c1, c2, p) + spec_flatten_from(
                    s, i + 1, p, start, true, close_tail,
                )
            } else {
                spec_flatten_from(s, i + 1, p, p, true, close_tail)
            },
            PathCmd::Close => if active {
                seq![SegFx { a: cur, b: start }] + spec_flatten_from(
                    s, i + 1, start, start, true, close_tail,
                )
            } else {
                spec_flatten_from(s, i + 1, cur, start, false, close_tail)
            },
        }
    }
}

/// The polyline a path fills as: flattened with implicit closing.
pub open spec fn spec_fill_segs(s: Seq<PathCmd>) -> Seq<SegFx> {
    spec_flatten_from(s, 0, PointFx { x: 0, y: 0 }, PointFx { x: 0, y: 0 }, false, true)
}

/// The polyline a path strokes as: flattened, open ends kept open.
pub open spec fn spec_stroke_segs(s: Seq<PathCmd>) -> Seq<SegFx> {
    spec_flatten_from(s, 0, PointFx { x: 0, y: 0 }, PointFx { x: 0, y: 0 }, false, false)
}

/// Evaluates a quadratic curve at parameter `j / 16`.
fn quad_point(p0: PointFx, c: PointFx, p1: PointFx, j: i64) -> (r: PointFx)
    requires
        crate::geom::point_ok(p0),
        crate::geom::point_ok(c),
        crate::geom::point_ok(p1),
        0 <= j <= 16,
    ensures
        r == spec_quad_point(p0, c, p1, j as int),
        crate::geom::point_ok(r),
{
    proof {
        assert(0 <= (16 - j as int) * (16 - j as int) <= 256 && 0 <= 2 * (j as int) * (16
            - j as int) <= 256 && 0 <= (j as int) * (j as int) <= 256 && (16 - j as int) * (16
            - j as int) + 2 * (j as int) * (16 - j as int) + (j as int) * (j as int)
            == 256) by (nonlinear_arith)
            requires 0 <= j <= 16;
    }
    let w0 = (16 - j) * (16 - j);
    let w1 = 2 * j * (16 - j);
    let w2 = j * j;
    proof {
        lemma_abs_mul_le(w0 as int, p0.x as int, w0 as int, COORD_LIMIT as int);
        lemma_abs_mul_le(w1 as int, c.x as int, w1 as int, COORD_LIMIT as int);
        lemma_abs_mul_le(w2 as int, p1.x as int, w2 as int, COORD_LIMIT as int);
        lemma_abs_mul_le(w0 as int, p0.y as int, w0 as int, COORD_LIMIT as int);
        lemma_abs_mul_le(w1 as int, c.y as int, w1 as int, COORD_LIMIT as int);
        lemma_abs_mul_le(w2 as int, p1.y as int, w2 as int, COORD_LIMIT as int);
        assert(w0 as int * COORD_LIMIT as int + w1 as int * COORD_LIMIT as int + w2 as int
            * COORD_LIMIT as int == 256 * COORD_LIMIT as int) by (nonlinear_arith)
            requires w0 as int + w1 as int + w2 as int == 256;
        lemma_tdiv_abs_le(
            w0 as int * p0.x as int + w1 as int * c.x as int + w2 as int * p1.x as int,
            256,
            256 * COORD_LIMIT as int,
            256,
        );
        lemma_tdiv_abs_le(
            w0 as int * p0.y as int + w1 as int * c.y as int + w2 as int * p1.y as int,
            256,
            256 * COORD_LIMIT as int,
            256,
        );
        vstd::arithmetic::div_mod::lemma_div_by_multiple(COORD_LIMIT as int, 256);
    }
    PointFx {
        x: tdiv64(w0 * p0.x + w1 * c.x + w2 * p1.x, 256),
        y: tdiv64(w0 * p0.y + w1 * c.y + w2 * p1.y, 256),
    }
}

/// Evaluates a cubic curve at parameter `j / 16`.
fn cubic_point(p0: PointFx, c1: PointFx, c2: PointFx, p1: PointFx, j: i64) -> (r: PointFx)
    requires
        crate::geom::point_ok(p0),
        crate::geom::point_ok(c1),
        crate::geom::point_ok(c2),
        crate::geom::point_ok(p1),
        0 <= j <= 16,
    ensures
        r == spec_cubic_point(p0, c1, c2, p1, j as int),
        crate::geom::point_ok(r),
{
    proof {
        let ui = 16 - j as int;
        let ji = j as int;
        assert(ui * ui * ui + 3 * ji * ui * ui + 3 * ji * ji * ui + ji * ji * ji == 4096
            && 0 <= ui * ui && ui * ui <= 256 && 0 <= ji * ji && ji * ji <= 256
            && 0 <= 3 * ji * ui && 3 * ji * ui <= 768
            && 0 <= 3 * ji * ji && 3 * ji * ji <= 768
            && 0 <= ui * ui * ui <= 4096 && 0 <= 3 * ji * ui * ui <= 4096
            && 0 <= 3 * ji * ji * ui <= 4096 && 0 <= ji * ji * ji <= 4096) by (nonlinear_arith)
            requires ji == j as int, ui == 16 - j as int, 0 <= j <= 16;
    }
    let u = 16 - j;
    let w0 = u * u * u;
    let w1 = 3 * j * u * u;
    let w2 = 3 * j * j * u;
    let w3 = j * j * j;
    proof {
        lemma_abs_mul_le(w0 as int, p0.x as int, w0 as int, COORD_LIMIT as int);
        lemma_abs_mul_le(w1 as int, c1.x as int, w1 as int, COORD_LIMIT as int);
        lemma_abs_mul_le(w2 as int, c2.x as int, w2 as int, COORD_LIMIT as int);
        lemma_abs_mul_le(w3 as int, p1.x as int, w3 as int, COORD_LIMIT as int);
        lemma_abs_mul_le(w0 as int, p0.y as int, w0 as int, COORD_LIMIT as int);
        lemma_abs_mul_le(w1 as int, c1.y as int, w1 as int, COORD_LIMIT as int);
        lemma_abs_mul_le(w2 as int, c2.y as int, w2 as int, COORD_LIMIT as int);
        lemma_abs_mul_le(w3 as int, p1.y as int, w3 as int, COORD_LIMIT as int);
        assert(w0 as int * COORD_LIMIT as int + w1 as int * COORD_LIMIT as int + w2 as int
            * COORD_LIMIT as int + w3 as int * COORD_LIMIT as int == 4096
            * COORD_LIMIT as int) by (nonlinear_arith)
            requires w0 as int + w1 as int + w2 as int + w3 as int == 4096;
        lemma_tdiv_abs_le(
            w0 as int * p0.x as int + w1 as int * c1.x as int + w2 as int * c2.x as int
                + w3 as int * p1.x as int,
            4096,
            4096 * COORD_LIMIT as int,
            4096,
        );
        lemma_tdiv_abs_le(
            w0 as int * p0.y as int + w1 as int * c1.y as int + w2 as int * c2.y as int
                + w3 as int * p1.y as int,
            4096,
            4096 * COORD_LIMIT as int,
            4096,
        );
        vstd::arithmetic::div_mod::lemma_div_by_multiple(COORD_LIMIT as int, 4096);
    }
    PointFx {
        x: tdiv64(w0 * p0.x + w1 * c1.x + w2 * c2.x + w3 * p1.x, 4096),
        y: tdiv64(w0 * p0.y + w1 * c1.y + w2 * c2.y + w3 * p1.y, 4096),
    }
}

/// Flattens a path into its polyline, closing open subpaths when
/// `close_tail` is set.
pub fn flatten_path(p: &crate::path::Path, close_tail: bool) -> (r: Vec<SegFx>)
    requires
        p.wf(),
    ensures
        r@ == spec_flatten_from(
            p@, 0, PointFx { x: 0, y: 0 }, PointFx { x: 0, y: 0 }, false, close_tail,
        ),
        segs_ok(r@),
{
    let mut out: Vec<SegFx> = Vec::new();
    let mut cur = PointFx { x: 0, y: 0 };
    let mut start = PointFx { x: 0, y: 0 };
    let mut active = false;
    let n = p.len();
    let ghost total = spec_flatten_from(
        p@, 0, PointFx { x: 0, y: 0 }, PointFx { x: 0, y: 0 }, false, close_tail,
    );
    for i in 0..n
        invariant
            n == p@.len(),
            p.wf(),
            segs_ok(out@),
            crate::geom::point_ok(cur),
            crate::geom::point_ok(start),
            total == out@ + spec_flatten_from(p@, i as int, cur, start, active, close_tail),
            total == spec_flatten_from(
                p@, 0, PointFx { x: 0, y: 0 }, PointFx { x: 0, y: 0 }, false, close_tail,
            ),
    {
        let ghost pre = out@;
        match p.cmd_at(i) {
            PathCmd::MoveTo(q) => {
                if active && close_tail {
                    out.push(SegFx { a: cur, b: start });
                }
                cur = q;
                start = q;
                active = true;
            },
            PathCmd::LineTo(q) => {
                if active {
                    out.push(SegFx { a: cur, b: q });
                    cur = q;
                } else {
                    cur = q;
                    start = q;
                    active = true;
                }
            },
            PathCmd::QuadTo(c1, q) => {
                if active {
                    let p0 = cur;
                    for j in 0..16u64
                        invariant
                            crate::geom::point_ok(p0),
                            crate::geom::point_ok(c1),
                            crate::geom::point_ok(q),
                            segs_ok(out@),
                            out@ =~= pre + spec_quad_segs(p0, c1, q).take(j as int),
                    {
                        let a = quad_point(p0, c1, q, j as i64);
                        let b = quad_point(p0, c1, q, j as i64 + 1);
                        out.push(SegFx { a, b });
                        proof {
                            assert(spec_quad_segs(p0, c1, q).take(j + 1) =~= spec_quad_segs(
                                p0, c1, q,
                            ).take(j as int).push(spec_quad_segs(p0, c1, q)[j as int]));
                        }
                    }
                    proof {
                        assert(spec_quad_segs(p0, c1, q).take(16) =~= spec_quad_segs(p0, c1, q));
                    }
                    cur = q;
                } else {
                    cur = q;
                    start = q;
                    active = true;
                }
            },
            PathCmd::CubicTo(c1, c2, q) => {
                if active {
                    let p0 = cur;
                    for j in 0..16u64
                        invariant
                            crate::geom::point_ok(p0),
                            crate::geom::point_ok(c1),
                            crate::geom::point_ok(c2),
                            crate::geom::point_ok(q),
                            segs_ok(out@),
                            out@ =~= pre + spec_cubic_segs(p0, c1, c2, q).take(j as int),
                    {
                        let a = cubic_point(p0, c1, c2, q, j as i64);
                        let b = cubic_point(p0, c1, c2, q, j as i64 + 1);
                        out.push(SegFx { a, b });
                        proof {
                            assert(spec_cubic_segs(p0, c1, c2, q).take(j + 1) =~= spec_cubic_segs(
                                p0, c1, c2, q,
                            ).take(j as int).push(spec_cubic_segs(p0, c1, c2, q)[j as int]));
                        }
                    }
                    proof {
                        assert(spec_cubic_segs(p0, c1, c2, q).take(16) =~= spec_cubic_segs(
                            p0, c1, c2, q,
                        ));
                    }
                    cur = q;
                } else {
                    cur = q;
                    start = q;
                    active = true;
                }
            },
            PathCmd::Close => {
                if active {
                    out.push(SegFx { a: cur, b: start });
                    cur = start;
                }
            },
        }
        proof {
            assert(total =~= out@ + spec_flatten_from(
                p@, i + 1, cur, start, active, close_tail,
            ));
        }
    }
    if active && close_tail {
        out.push(SegFx { a: cur, b: start });
    }
    out
}

/// The side of a segment a point lies on: the cross product of the
/// segment direction with the vector to the point.
pub open spec fn spec_seg_side(s: SegFx, p: PointFx) -> int {
    (s.b.x - s.a.x) * (p.y - s.a.y) - (s.b.y - s.a.y) * (p.x - s.a.x)
}

/// The winding contribution of one segment at a point, by the upward
/// and downward crossing rules.
pub open spec fn spec_seg_wind(s: SegFx, p: PointFx) -> int {
    if s.a.y <= p.y && p.y < s.b.y && spec_seg_side(s, p) > 0 {
        1
    } else if s.b.y <= p.y && p.y < s.a.y && spec_seg_side(s, p) < 0 {
        -1
    } else {
        0
    }
}

/// The winding number of a polyline around a point.
pub open spec fn spec_wind(segs: Seq<SegFx>, p: PointFx) -> int
    decreases segs.len(),
{
    if segs.len() == 0 {
        0
    } else {
        spec_wind(segs.drop_last(), p) + spec_seg_wind(segs.last(), p)
    }
}

/// Non-zero-rule coverage of a point by a flattened path.
pub open spec fn spec_covered_path(segs: Seq<SegFx>, p: PointFx) -> bool {
    spec_wind(segs, p) != 0
}

/// Computes the winding number of a polyline around a point.
pub fn wind_at(segs: &Vec<SegFx>, p: PointFx) -> (w: i128)
    requires
        segs_ok(segs@),
        crate::geom::point_ok(p),
    ensures
        w == spec_wind(segs@, p),
{
    let mut w: i128 = 0;
    let n = segs.len();
    for i in 0..n
        invariant
            n == segs@.len(),
            segs_ok(segs@),
            crate::geom::point_ok(p),
            w == spec_wind(segs@.take(i as int), p),
            -(i as int) <= w <= i as int,
    {
        let s = segs[i];
        proof {
            lemma_abs_mul_le(
                s.b.x as int - s.a.x as int,
                p.y as int - s.a.y as int,
                2 * COORD_LIMIT as int,
                2 * COORD_LIMIT as int,
            );
            lemma_abs_mul_le(
                s.b.y as int - s.a.y as int,
                p.x as int - s.a.x as int,
                2 * COORD_LIMIT as int,
                2 * COORD_LIMIT as int,
            );
            assert(segs@.take(i + 1).drop_last() =~= segs@.take(i as int));
        }
        let side: i128 = (s.b.x as i128 - s.a.x as i128) * (p.y as i128 - s.a.y as i128)
            - (s.b.y as i128 - s.a.y as i128) * (p.x as i128 - s.a.x as i128);
        if s.a.y <= p.y && p.y < s.b.y && side > 0 {
            w = w + 1;
        } else if s.b.y <= p.y && p.y < s.a.y && side < 0 {
            w = w - 1;
        }
    }
    proof {
        assert(segs@.take(n as int) =~= segs@);
    }
    w
}

/// Coverage of a point by one stroked segment: the half-width band over
/// the segment's extent, plus end disks for the non-butt caps.  Square
/// caps share the round model at this pixel granularity; joins are the
/// plain union of the segment strokes.
pub open spec fn spec_seg_stroke_cover(s: SegFx, hw: int, cap: crate::options::LineCap, p: PointFx) -> bool {
    let dx = s.b.x - s.a.x;
    let dy = s.b.y - s.a.y;
    let dd = dx * dx + dy * dy;
    let ex = p.x - s.a.x;
    let ey = p.y - s.a.y;
    let tnum = ex * dx + ey * dy;
    let side = dx * ey - dy * ex;
    let da2 = ex * ex + ey * ey;
    let fx2 = p.x - s.b.x;
    let fy2 = p.y - s.b.y;
    let db2 = fx2 * fx2 + fy2 * fy2;
    if dd == 0 {
        cap != crate::options::LineCap::Butt && da2 <= hw * hw
    } else {
        (0 <= tnum && tnum <= dd && side * side <= hw * hw * dd) || (cap
            != crate::options::LineCap::Butt && (da2 <= hw * hw || db2 <= hw * hw))
    }
}

/// Coverage of a point by a stroked polyline: any segment covers it.
pub open spec fn spec_stroke_cover(
    segs: Seq<SegFx>,
    hw: int,
    cap: crate::options::LineCap,
    p: PointFx,
) -> bool {
    exists|k: int| 0 <= k < segs.len() && spec_seg_stroke_cover(#[trigger] segs[k], hw, cap, p)
}

/// Tests stroke coverage of a point by one segment.
fn seg_stroke_cover(s: SegFx, hw: i64, cap: crate::options::LineCap, p: PointFx) -> (r: bool)
    requires
        seg_ok(s),
        crate::geom::point_ok(p),
        0 <= hw <= COORD_LIMIT,
    ensures
        r == spec_seg_stroke_cover(s, hw as int, cap, p),
{
    proof {
        let cl2 = 2 * COORD_LIMIT as int;
        lemma_abs_mul_le(s.b.x as int - s.a.x as int, s.b.x as int - s.a.x as int, cl2, cl2);
        lemma_abs_mul_le(s.b.y as int - s.a.y as int, s.b.y as int - s.a.y as int, cl2, cl2);
        lemma_abs_mul_le(p.x as int - s.a.x as int, s.b.x as int - s.a.x as int, cl2, cl2);
        lemma_abs_mul_le(p.y as int - s.a.y as int, s.b.y as int - s.a.y as int, cl2, cl2);
        lemma_abs_mul_le(s.b.x as int - s.a.x as int, p.y as int - s.a.y as int, cl2, cl2);
        lemma_abs_mul_le(s.b.y as int - s.a.y as int, p.x as int - s.a.x as int, cl2, cl2);
        lemma_abs_mul_le(p.x as int - s.a.x as int, p.x as int - s.a.x as int, cl2, cl2);
        lemma_abs_mul_le(p.y as int - s.a.y as int, p.y as int - s.a.y as int, cl2, cl2);
        lemma_abs_mul_le(p.x as int - s.b.x as int, p.x as int - s.b.x as int, cl2, cl2);
        lemma_abs_mul_le(p.y as int - s.b.y as int, p.y as int - s.b.y as int, cl2, cl2);
        lemma_abs_mul_le(hw as int, hw as int, COORD_LIMIT as int, COORD_LIMIT as int);
    }
    let dx: i128 = s.b.x as i128 - s.a.x as i128;
    let dy: i128 = s.b.y as i128 - s.a.y as i128;
    let dd: i128 = dx * dx + dy * dy;
    let ex: i128 = p.x as i128 - s.a.x as i128;
    let ey: i128 = p.y as i128 - s.a.y as i128;
    let hw2: i128 = (hw as i128) * (hw as i128);
    let da2: i128 = ex * ex + ey * ey;
    let is_cap = match cap {
        crate::options::LineCap::Butt => false,
        crate::options::LineCap::Round => true,
        crate::options::LineCap::Square => true,
    };
    if dd == 0 {
        is_cap && da2 <= hw2
    } else {
        let tnum: i128 = ex * dx + ey * dy;
        let side: i128 = dx * ey - dy * ex;
        proof {
            let cl4 = 8 * COORD_LIMIT as int * COORD_LIMIT as int;
            lemma_abs_mul_le(side as int, side as int, cl4, cl4);
            lemma_abs_mul_le(
                hw as int * hw as int,
                dd as int,
                COORD_LIMIT as int * COORD_LIMIT as int,
                cl4,
            );
        }
        let fx2: i128 = p.x as i128 - s.b.x as i128;
        let fy2: i128 = p.y as i128 - s.b.y as i128;
        let db2: i128 = fx2 * fx2 + fy2 * fy2;
        (0 <= tnum && tnum <= dd && side * side <= hw2 * dd) || (is_cap && (da2 <= hw2 || db2
            <= hw2))
    }
}

/// Tests stroke coverage of a point by a whole polyline.
pub fn stroke_cover_at(
    segs: &Vec<SegFx>,
    hw: i64,
    cap: crate::options::LineCap,
    p: PointFx,
) -> (r: bool)
    requires
        segs_ok(segs@),
        crate::geom::point_ok(p),
        0 <= hw <= COORD_LIMIT,
    ensures
        r == spec_stroke_cover(segs@, hw as int, cap, p),
{
    let n = segs.len();
    for i in 0..n
        invariant
            n == segs@.len(),
            segs_ok(segs@),
            crate::geom::point_ok(p),
            0 <= hw <= COORD_LIMIT,
            forall|k: int| 0 <= k < i ==> !spec_seg_stroke_cover(
                #[trigger] segs@[k], hw as int, cap, p,
            ),
    {
        if seg_stroke_cover(segs[i], hw, cap, p) {
            return true;
        }
    }
    false
}

/// The center of a pixel on the fixed-point grid.
pub open spec fn spec_pixel_center(px: int, py: int) -> PointFx {
    PointFx { x: (px * FX_ONE + FX_HALF) as i64, y: (py * FX_ONE + FX_HALF) as i64 }
}

/// Computes a pixel center.
pub fn pixel_center(px: u32, py: u32) -> (r: PointFx)
    requires
        px < MAX_DIM,
        py < MAX_DIM,
    ensures
        r == spec_pixel_center(px as int, py as int),
        crate::geom::point_ok(r),
{
    PointFx { x: px as i64 * FX_ONE + FX_HALF, y: py as i64 * FX_ONE + FX_HALF }
}

/// Where a pixel center lands in path space: through the inverse of the
/// saturated transform, or nowhere when the transform is singular.
pub open spec fn spec_path_point(t: Transform, px: int, py: int) -> Option<PointFx> {
    let ts = spec_sanitize(t);
    if spec_det_raw(ts) == 0 {
        None
    } else {
        Some(spec_apply(spec_invert(ts), spec_pixel_center(px, py)))
    }
}

/// Computes where a pixel center lands in path space.
pub fn path_point(t: &Transform, px: u32, py: u32) -> (r: Option<PointFx>)
    requires
        px < MAX_DIM,
        py < MAX_DIM,
    ensures
        r == spec_path_point(*t, px as int, py as int),
        r is Some ==> crate::geom::point_ok(r->Some_0),
{
    let ts = t.sanitize();
    match ts.invert() {
        None => None,
        Some(inv) => Some(inv.apply(pixel_center(px, py))),
    }
}

/// Integer square root: the largest value whose square does not exceed
/// the argument.
pub open spec fn spec_isqrt(x: int) -> int
    decreases x,
{
    if x <= 0 {
        0
    } else {
        let r = 2 * spec_isqrt(x / 4);
        if (r + 1) * (r + 1) <= x {
            r + 1
        } else {
            r
        }
    }
}

/// The integer square root is non-negative and its square stays below
/// the argument.
pub proof fn lemma_isqrt_sq_le(x: int)
    requires
        0 <= x,
    ensures
        0 <= spec_isqrt(x),
        spec_isqrt(x) * spec_isqrt(x) <= x,
    decreases x,
{
    if x > 0 {
        lemma_isqrt_sq_le(x / 4);
        let q = spec_isqrt(x / 4);
        let r = 2 * q;
        vstd::arithmetic::div_mod::lemma_fundamental_div_mod(x, 4);
        assert(r * r <= x) by (nonlinear_arith)
            requires
                q * q <= x / 4,
                x == 4 * (x / 4) + x % 4,
                0 <= x % 4,
                r == 2 * q;
    }
}

/// Computes the integer square root.
pub fn isqrt64(x: u64) -> (r: u64)
    requires
        x <= 9223372036854775808,
    ensures
        r as int == spec_isqrt(x as int),
    decreases x,
{
    if x == 0 {
        0
    } else {
        let q = isqrt64(x / 4);
        proof {
            lemma_isqrt_sq_le(x as int / 4);
            assert(q as int <= 2147483647) by (nonlinear_arith)
                requires
                    q as int * q as int <= x as int / 4,
                    x as int / 4 <= 2305843009213693952,
                    0 <= q as int;
        }
        let r = 2 * q;
        let c = r + 1;
        proof {
            assert(c as int * c as int <= 18446744073709551615) by (nonlinear_arith)
                requires 0 <= c as int, c as int <= 4294967295;
        }
        if c * c <= x {
            c
        } else {
            r
        }
    }
}

/// The gradient position of a point for a linear gradient: the clamped
/// projection onto the gradient axis, or the end position when the
/// axis is degenerate.
pub open spec fn spec_linear_t(s: PointFx, e: PointFx, q: PointFx) -> int {
    let dx = e.x - s.x;
    let dy = e.y - s.y;
    let dd = dx * dx + dy * dy;
    if dd == 0 {
        FX_ONE as int
    } else {
        spec_clamp01(spec_tdiv(((q.x - s.x) * dx + (q.y - s.y) * dy) * FX_ONE, dd))
    }
}

/// The gradient position of a point for a radial gradient: the clamped
/// ratio of the distance from the circle's center to its radius.
pub open spec fn spec_radial_t(c: PointFx, radius: i64, q: PointFx) -> int {
    let dx = q.x - c.x;
    let dy = q.y - c.y;
    let dist = spec_isqrt(dx * dx + dy * dy);
    if radius <= 0 {
        FX_ONE as int
    } else {
        spec_clamp01(spec_tdiv(dist * FX_ONE, radius as int))
    }
}

/// Clamps a wide fixed-point factor into `[0, 1]`.
fn clamp01_wide(v: i128) -> (r: i64)
    ensures
        r as int == spec_clamp01(v as int),
        0 <= r <= FX_ONE,
{
    if v < 0 {
        0
    } else if v > FX_ONE as i128 {
        FX_ONE
    } else {
        v as i64
    }
}

/// Computes the linear gradient position of a point.
fn linear_t(s: PointFx, e: PointFx, q: PointFx) -> (t: i64)
    requires
        crate::geom::point_ok(s),
        crate::geom::point_ok(e),
        crate::geom::point_ok(q),
    ensures
        t as int == spec_linear_t(s, e, q),
        0 <= t <= FX_ONE,
{
    proof {
        let cl2 = 2 * COORD_LIMIT as int;
        lemma_abs_mul_le(e.x as int - s.x as int, e.x as int - s.x as int, cl2, cl2);
        lemma_abs_mul_le(e.y as int - s.y as int, e.y as int - s.y as int, cl2, cl2);
        lemma_abs_mul_le(q.x as int - s.x as int, e.x as int - s.x as int, cl2, cl2);
        lemma_abs_mul_le(q.y as int - s.y as int, e.y as int - s.y as int, cl2, cl2);
        lemma_abs_mul_le(
            (q.x as int - s.x as int) * (e.x as int - s.x as int) + (q.y as int - s.y as int)
                * (e.y as int - s.y as int),
            FX_ONE as int,
            8 * COORD_LIMIT as int * COORD_LIMIT as int,
            FX_ONE as int,
        );
    }
    let dx: i128 = e.x as i128 - s.x as i128;
    let dy: i128 = e.y as i128 - s.y as i128;
    let dd: i128 = dx * dx + dy * dy;
    if dd == 0 {
        FX_ONE
    } else {
        let num: i128 = ((q.x as i128 - s.x as i128) * dx + (q.y as i128 - s.y as i128) * dy)
            * (FX_ONE as i128);
        clamp01_wide(tdiv128(num, dd))
    }
}

/// Computes the radial gradient position of a point.
fn radial_t(c: PointFx, radius: i64, q: PointFx) -> (t: i64)
    requires
        crate::geom::point_ok(c),
        crate::geom::point_ok(q),
        0 <= radius <= COORD_LIMIT,
    ensures
        t as int == spec_radial_t(c, radius, q),
        0 <= t <= FX_ONE,
{
    proof {
        let cl2 = 2 * COORD_LIMIT as int;
        lemma_abs_mul_le(q.x as int - c.x as int, q.x as int - c.x as int, cl2, cl2);
        lemma_abs_mul_le(q.y as int - c.y as int, q.y as int - c.y as int, cl2, cl2);
    }
    let dx: i128 = q.x as i128 - c.x as i128;
    let dy: i128 = q.y as i128 - c.y as i128;
    proof {
        assert(0 <= (q.x as int - c.x as int) * (q.x as int - c.x as int)) by (nonlinear_arith);
        assert(0 <= (q.y as int - c.y as int) * (q.y as int - c.y as int)) by (nonlinear_arith);
    }
    let d2: i128 = dx * dx + dy * dy;
    let dist = isqrt64(d2 as u64);
    proof {
        lemma_isqrt_sq_le(d2 as int);
        assert(spec_isqrt(d2 as int) <= 4294967296) by (nonlinear_arith)
            requires
                spec_isqrt(d2 as int) * spec_isqrt(d2 as int) <= d2 as int,
                d2 as int <= 9223372036854775808,
                0 <= spec_isqrt(d2 as int);
    }
    if radius <= 0 {
        FX_ONE
    } else {
        clamp01_wide(tdiv128((dist as i128) * (FX_ONE as i128), radius as i128))
    }
}

/// One channel linearly interpolated between two stops.
pub open spec fn spec_lerp_channel(c0: u8, c1: u8, f: int) -> u8 {
    spec_clamp255(spec_tdiv(c0 * (FX_ONE - f) + c1 * f, FX_ONE as int))
}

/// A color linearly interpolated between two stops.
pub open spec fn spec_lerp_color(c0: Color, c1: Color, f: int) -> Color {
    Color {
        r: spec_lerp_channel(c0.r, c1.r, f),
        g: spec_lerp_channel(c0.g, c1.g, f),
        b: spec_lerp_channel(c0.b, c1.b, f),
        a: spec_lerp_channel(c0.a, c1.a, f),
    }
}

/// The color of a gradient at a clamped position, walking the stops in
/// the caller's order: the first bracketing pair interpolates, anything
/// before the first stop pads with it, anything past the last pads
/// with the last.
pub open spec fn spec_grad_color(stops: Seq<GradientStop>, t: int) -> Color
    decreases stops.len(),
{
    if stops.len() == 0 {
        Color { r: 0, g: 0, b: 0, a: 0 }
    } else if stops.len() == 1 {
        stops[0].color
    } else if t <= stops[0].offset {
        stops[0].color
    } else if t <= stops[1].offset {
        let span = stops[1].offset - stops[0].offset;
        if span <= 0 {
            stops[1].color
        } else {
            spec_lerp_color(
                stops[0].color,
                stops[1].color,
                spec_clamp01(spec_tdiv((t - stops[0].offset) * FX_ONE, span)),
            )
        }
    } else {
        spec_grad_color(stops.drop_first(), t)
    }
}

/// Interpolates one channel between two stops.
fn lerp_channel(c0: u8, c1: u8, f: i64) -> (r: u8)
    requires
        0 <= f <= FX_ONE,
    ensures
        r == spec_lerp_channel(c0, c1, f as int),
{
    proof {
        lemma_abs_mul_le(c0 as int, FX_ONE as int - f as int, 255, FX_ONE as int);
        lemma_abs_mul_le(c1 as int, f as int, 255, FX_ONE as int);
    }
    clamp255(tdiv64(c0 as i64 * (FX_ONE - f) + c1 as i64 * f, FX_ONE))
}

/// Computes the color of a gradient at a clamped position.
fn grad_color(stops: &Vec<GradientStop>, t: i64) -> (r: Color)
    requires
        forall|i: int| 0 <= i < stops@.len() ==> 0 <= (#[trigger] stops@[i]).offset <= FX_ONE,
        0 <= t <= FX_ONE,
    ensures
        r == spec_grad_color(stops@, t as int),
{
    if stops.len() == 0 {
        return Color { r: 0, g: 0, b: 0, a: 0 };
    }
    let mut i: usize = 0;
    proof {
        assert(stops@.skip(0) =~= stops@);
    }
    while i < stops.len() - 1
        invariant
            i < stops@.len(),
            forall|k: int| 0 <= k < stops@.len() ==> 0 <= (#[trigger] stops@[k]).offset <= FX_ONE,
            0 <= t <= FX_ONE,
            spec_grad_color(stops@.skip(i as int), t as int) == spec_grad_color(
                stops@, t as int,
            ),
        decreases stops@.len() - i,
    {
        proof {
            assert(stops@.skip(i as int)[0] == stops@[i as int]);
            assert(stops@.skip(i as int)[1] == stops@[i + 1]);
        }
        if t <= stops[i].offset {
            return stops[i].color;
        }
        if t <= stops[i + 1].offset {
            let span = stops[i + 1].offset - stops[i].offset;
            if span <= 0 {
                return stops[i + 1].color;
            }
            proof {
                lemma_abs_mul_le(
                    t as int - stops@[i as int].offset as int,
                    FX_ONE as int,
                    FX_ONE as int,
                    FX_ONE as int,
                );
            }
            let f = clamp01_wide(tdiv128(
                (t as i128 - stops[i].offset as i128) * (FX_ONE as i128),
                span as i128,
            ));
            let c0 = stops[i].color;
            let c1 = stops[i + 1].color;
            return Color {
                r: lerp_channel(c0.r, c1.r, f),
                g: lerp_channel(c0.g, c1.g, f),
                b: lerp_channel(c0.b, c1.b, f),
                a: lerp_channel(c0.a, c1.a, f),
            };
        }
        proof {
            assert(stops@.skip(i as int).drop_first() =~= stops@.skip(i + 1));
        }
        i = i + 1;
    }
    proof {
        assert(stops@.skip(i as int).len() == 1);
        assert(stops@.skip(i as int)[0] == stops@[i as int]);
    }
    stops[i].color
}

/// The pixel of a surface a path-space point samples, with pad
/// clamping at the edges and nearest sampling.
pub open spec fn spec_sample_surface(data: Seq<u8>, w: int, h: int, q: PointFx) -> Color {
    let sx0 = spec_tdiv(q.x as int, FX_ONE as int);
    let sy0 = spec_tdiv(q.y as int, FX_ONE as int);
    let sx = if sx0 < 0 { 0 } else if sx0 >= w { w - 1 } else { sx0 };
    let sy = if sy0 < 0 { 0 } else if sy0 >= h { h - 1 } else { sy0 };
    let idx = 4 * (sy * w + sx);
    Color { r: data[idx], g: data[idx + 1], b: data[idx + 2], a: data[idx + 3] }
}

/// Samples a surface at a path-space point.
fn sample_surface(data: &Vec<u8>, w: u32, h: u32, q: PointFx) -> (r: Color)
    requires
        1 <= w <= MAX_DIM,
        1 <= h <= MAX_DIM,
        data@.len() >= w as int * h as int * 4,
        crate::geom::point_ok(q),
    ensures
        r == spec_sample_surface(data@, w as int, h as int, q),
{
    let sx0 = tdiv64(q.x, FX_ONE);
    let sy0 = tdiv64(q.y, FX_ONE);
    let sx: i64 = if sx0 < 0 {
        0
    } else if sx0 >= w as i64 {
        w as i64 - 1
    } else {
        sx0
    };
    let sy: i64 = if sy0 < 0 {
        0
    } else if sy0 >= h as i64 {
        h as i64 - 1
    } else {
        sy0
    };
    proof {
        let sxi = sx as int;
        let syi = sy as int;
        let wi = w as int;
        let hi = h as int;
        assert(syi * wi + sxi + 1 <= hi * wi && 0 <= syi * wi + sxi && syi * wi + sxi
            <= 268435455) by (nonlinear_arith)
            requires
                0 <= sxi,
                sxi < wi,
                0 <= syi,
                syi < hi,
                wi <= 16383,
                hi <= 16383;
        assert(4 * (syi * wi + sxi) + 3 < 4 * (wi * hi)) by (nonlinear_arith)
            requires syi * wi + sxi + 1 <= hi * wi;
    }
    let idx: usize = 4 * (sy as usize * w as usize + sx as usize);
    Color { r: data[idx], g: data[idx + 1], b: data[idx + 2], a: data[idx + 3] }
}

/// The shader color of a paint at a device pixel: the paint evaluated
/// at the pixel center inverse-mapped through the paint's own
/// transform, then scaled by the target opacity.
pub open spec fn spec_shade(p: Paint, opacity: int, px: int, py: int) -> Color {
    match p {
        Paint::Solid(c) => spec_scale_color(c, opacity),
        Paint::LinearGradient(g) => match spec_path_point(g.transform, px, py) {
            Option::None => Color { r: 0, g: 0, b: 0, a: 0 },
            Option::Some(q) => spec_scale_color(
                spec_grad_color(g.stops@, spec_linear_t(g.start, g.end, q)),
                opacity,
            ),
        },
        Paint::RadialGradient(g) => match spec_path_point(g.transform, px, py) {
            Option::None => Color { r: 0, g: 0, b: 0, a: 0 },
            Option::Some(q) => spec_scale_color(
                spec_grad_color(g.stops@, spec_radial_t(g.end, g.radius, q)),
                opacity,
            ),
        },
        Paint::Surface(s) => match spec_path_point(s.transform, px, py) {
            Option::None => Color { r: 0, g: 0, b: 0, a: 0 },
            Option::Some(q) => spec_scale_color(
                spec_sample_surface(s.data@, s.width as int, s.height as int, q),
                opacity,
            ),
        },
    }
}

/// Evaluates a paint's shader color at a device pixel.
pub fn shade(paint: &Paint, opacity: i64, px: u32, py: u32) -> (r: Color)
    requires
        paint_wf(*paint),
        px < MAX_DIM,
        py < MAX_DIM,
    ensures
        r == spec_shade(*paint, opacity as int, px as int, py as int),
{
    match paint {
        Paint::Solid(c) => scale_color(*c, opacity),
        Paint::LinearGradient(g) => match path_point(&g.transform, px, py) {
            None => Color { r: 0, g: 0, b: 0, a: 0 },
            Some(q) => scale_color(
                grad_color(&g.stops, linear_t(g.start, g.end, q)),
                opacity,
            ),
        },
        Paint::RadialGradient(g) => match path_point(&g.transform, px, py) {
            None => Color { r: 0, g: 0, b: 0, a: 0 },
            Some(q) => scale_color(
                grad_color(&g.stops, radial_t(g.end, g.radius, q)),
                opacity,
            ),
        },
        Paint::Surface(s) => match path_point(&s.transform, px, py) {
            None => Color { r: 0, g: 0, b: 0, a: 0 },
            Some(q) => scale_color(sample_surface(&s.data, s.width, s.height, q), opacity),
        },
    }
}

} // verus!
