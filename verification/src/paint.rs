//! Paint resolution: from an abstract style descriptor to a concrete
//! paint carrying its own transform.
//!
//! Gradients use the fixed pad spread; image patterns use pad spread,
//! bilinear filtering and full opacity.  Degenerate gradients collapse
//! into a solid paint of the last stop's color, as the backend's
//! gradient constructors do, so no paint value ever represents a
//! zero-size gradient.  A pattern over a buffer shorter than its
//! declared dimensions is rejected with a bounds error, never read out
//! of range.

use vstd::prelude::*;
use crate::color::{Color, color_wf, spec_premul_color};
use crate::fx::coord_ok;
use crate::geom::{PointFx, point_ok};
use crate::transform::Transform;

verus! {

/// One gradient stop: a fixed-point offset and a premultiplied color.
/// Stops keep the caller's order; they are not sorted here.
#[derive(Clone, Copy, Debug, PartialEq, Eq, Structural)]
pub struct GradientStop {
    pub offset: i64,
    pub color: Color,
}

/// An ordered run of gradient stops, in insertion order.
#[derive(Clone, Debug)]
pub struct GradientStops {
    pub stops: Vec<GradientStop>,
}

/// One stop of a gradient style descriptor, with straight color
/// channels.
#[derive(Clone, Copy, Debug, PartialEq, Eq, Structural)]
pub struct CanvasGradientStop {
    pub offset: i64,
    pub red: u8,
    pub green: u8,
    pub blue: u8,
    pub alpha: u8,
}

/// A linear gradient style descriptor.
#[derive(Clone, Debug)]
pub struct LinearGradientStyle {
    pub x0: i64,
    pub y0: i64,
    pub x1: i64,
    pub y1: i64,
    pub stops: Vec<CanvasGradientStop>,
}

/// A radial gradient style descriptor.  Only the second radius takes
/// part in construction; the backend has no two-radii gradients yet.
#[derive(Clone, Debug)]
pub struct RadialGradientStyle {
    pub x0: i64,
    pub y0: i64,
    pub r0: i64,
    pub x1: i64,
    pub y1: i64,
    pub r1: i64,
    pub stops: Vec<CanvasGradientStop>,
}

/// An image-surface style descriptor: premultiplied pixel bytes and
/// their declared dimensions.
#[derive(Clone, Debug)]
pub struct SurfaceStyle {
    pub surface_data: Vec<u8>,
    pub surface_width: u32,
    pub surface_height: u32,
}

/// An abstract fill-or-stroke style, as the canvas API hands it down.
#[derive(Clone, Debug)]
pub enum FillOrStrokeStyle {
    Color { red: u8, green: u8, blue: u8, alpha: u8 },
    LinearGradient(LinearGradientStyle),
    RadialGradient(RadialGradientStyle),
    Surface(SurfaceStyle),
}

/// A resolved linear gradient paint.
#[derive(Clone, Debug)]
pub struct LinearGradientPaint {
    pub start: PointFx,
    pub end: PointFx,
    pub stops: Vec<GradientStop>,
    pub transform: Transform,
}

/// A resolved radial gradient paint.
#[derive(Clone, Debug)]
pub struct RadialGradientPaint {
    pub start: PointFx,
    pub end: PointFx,
    pub radius: i64,
    pub stops: Vec<GradientStop>,
    pub transform: Transform,
}

/// A resolved image-pattern paint over a checked pixel buffer.
#[derive(Clone, Debug)]
pub struct SurfacePaint {
    pub data: Vec<u8>,
    pub width: u32,
    pub height: u32,
    pub transform: Transform,
}

/// A resolved paint.
#[derive(Clone, Debug)]
pub enum Paint {
    Solid(Color),
    LinearGradient(LinearGradientPaint),
    RadialGradient(RadialGradientPaint),
    Surface(SurfacePaint),
}

/// Why a style could not be resolved into a paint.
#[derive(Clone, Copy, Debug, PartialEq, Eq, Structural)]
pub enum PaintError {
    EmptyGradientStops,
    NegativeRadius,
    ZeroSurfaceSize,
    SurfaceTooShort,
}

/// The premultiplied gradient stop a style stop resolves to.
pub open spec fn spec_resolve_stop(s: CanvasGradientStop) -> GradientStop {
    GradientStop {
        offset: s.offset,
        color: spec_premul_color(s.red, s.green, s.blue, s.alpha),
    }
}

/// A structurally sound paint: geometry within the coordinate bound,
/// premultiplied stop colors, and a surface buffer at least as long as
/// its declared dimensions demand.
pub open spec fn paint_wf(p: Paint) -> bool {
    match p {
        Paint::Solid(c) => color_wf(c),
        Paint::LinearGradient(g) => point_ok(g.start) && point_ok(g.end) && (forall|i: int|
            0 <= i < g.stops@.len() ==> color_wf((#[trigger] g.stops@[i]).color)
                && 0 <= g.stops@[i].offset <= crate::fx::FX_ONE),
        Paint::RadialGradient(g) => point_ok(g.start) && point_ok(g.end)
            && 0 <= g.radius <= crate::fx::COORD_LIMIT
            && (forall|i: int| 0 <= i < g.stops@.len() ==> color_wf((#[trigger] g.stops@[i]).color)
                && 0 <= g.stops@[i].offset <= crate::fx::FX_ONE),
        Paint::Surface(s) => s.width >= 1 && s.height >= 1
            && s.width <= crate::geom::MAX_DIM && s.height <= crate::geom::MAX_DIM
            && s.data@.len() >= s.width as int * s.height as int * 4,
    }
}

/// Resolves one style stop.
pub fn resolve_stop(s: CanvasGradientStop) -> (r: GradientStop)
    ensures
        r == spec_resolve_stop(s),
        color_wf(r.color),
{
    GradientStop {
        offset: s.offset,
        color: Color::from_rgba8(s.red, s.green, s.blue, s.alpha),
    }
}

/// Resolves every stop of a style, keeping the caller's order.
fn resolve_stops(stops: &Vec<CanvasGradientStop>) -> (r: Vec<GradientStop>)
    ensures
        r@ == stops@.map_values(|s: CanvasGradientStop| spec_resolve_stop(s)),
        forall|i: int| 0 <= i < r@.len() ==> color_wf(#[trigger] r@[i].color)
            && r@[i].offset == stops@[i].offset,
{
    let mut out: Vec<GradientStop> = Vec::new();
    let n = stops.len();
    for i in 0..n
        invariant
            n == stops@.len(),
            out@ =~= stops@.take(i as int).map_values(
                |s: CanvasGradientStop| spec_resolve_stop(s),
            ),
            forall|k: int| 0 <= k < out@.len() ==> color_wf(#[trigger] out@[k].color)
                && out@[k].offset == stops@[k].offset,
    {
        out.push(resolve_stop(stops[i]));
        proof {
            assert(stops@.take(i + 1).drop_last() =~= stops@.take(i as int));
            assert(stops@.take(i + 1).map_values(
                |s: CanvasGradientStop| spec_resolve_stop(s),
            ) =~= stops@.take(i as int).map_values(
                |s: CanvasGradientStop| spec_resolve_stop(s),
            ).push(spec_resolve_stop(stops@[i as int])));
        }
    }
    proof {
        assert(stops@.take(n as int) =~= stops@);
    }
    out
}

/// What `paint_from_style` must return for a given style and transform;
/// the paint's stop sequence is constrained through `spec_resolve_stop`.
pub open spec fn spec_paint_from_style(
    style: FillOrStrokeStyle,
    transform: Transform,
    r: Result<Paint, PaintError>,
) -> bool {
    match style {
        FillOrStrokeStyle::Color { red, green, blue, alpha } => r == Result::<
            Paint,
            PaintError,
        >::Ok(Paint::Solid(spec_premul_color(red, green, blue, alpha))),
        FillOrStrokeStyle::LinearGradient(l) => {
            if l.stops@.len() == 0 {
                r == Result::<Paint, PaintError>::Err(PaintError::EmptyGradientStops)
            } else if l.stops@.len() == 1 {
                r is Ok && r->Ok_0 == Paint::Solid(
                    spec_resolve_stop(l.stops@[0]).color,
                )
            } else if l.x0 == l.x1 && l.y0 == l.y1 {
                r is Ok && r->Ok_0 == Paint::Solid(
                    spec_resolve_stop(l.stops@.last()).color,
                )
            } else {
                &&& r is Ok
                &&& r->Ok_0 is LinearGradient
                &&& r->Ok_0->LinearGradient_0.start == (PointFx { x: l.x0, y: l.y0 })
                &&& r->Ok_0->LinearGradient_0.end == (PointFx { x: l.x1, y: l.y1 })
                &&& r->Ok_0->LinearGradient_0.stops@ == l.stops@.map_values(
                    |s: CanvasGradientStop| spec_resolve_stop(s),
                )
                &&& r->Ok_0->LinearGradient_0.transform == transform
            }
        },
        FillOrStrokeStyle::RadialGradient(g) => {
            if g.r1 < 0 {
                r == Result::<Paint, PaintError>::Err(PaintError::NegativeRadius)
            } else if g.stops@.len() == 0 {
                r == Result::<Paint, PaintError>::Err(PaintError::EmptyGradientStops)
            } else if g.stops@.len() == 1 {
                r is Ok && r->Ok_0 == Paint::Solid(
                    spec_resolve_stop(g.stops@[0]).color,
                )
            } else if g.x0 == g.x1 && g.y0 == g.y1 && g.r1 == 0 {
                r is Ok && r->Ok_0 == Paint::Solid(
                    spec_resolve_stop(g.stops@.last()).color,
                )
            } else {
                &&& r is Ok
                &&& r->Ok_0 is RadialGradient
                &&& r->Ok_0->RadialGradient_0.start == (PointFx { x: g.x0, y: g.y0 })
                &&& r->Ok_0->RadialGradient_0.end == (PointFx { x: g.x1, y: g.y1 })
                &&& r->Ok_0->RadialGradient_0.radius == g.r1
                &&& r->Ok_0->RadialGradient_0.stops@ == g.stops@.map_values(
                    |s: CanvasGradientStop| spec_resolve_stop(s),
                )
                &&& r->Ok_0->RadialGradient_0.transform == transform
            }
        },
        FillOrStrokeStyle::Surface(s) => {
            if s.surface_width == 0 || s.surface_height == 0 {
                r == Result::<Paint, PaintError>::Err(PaintError::ZeroSurfaceSize)
            } else if s.surface_data@.len() < s.surface_width as int * s.surface_height as int
                * 4 {
                r == Result::<Paint, PaintError>::Err(PaintError::SurfaceTooShort)
            } else {
                &&& r is Ok
                &&& r->Ok_0 is Surface
                &&& r->Ok_0->Surface_0.data@ == s.surface_data@
                &&& r->Ok_0->Surface_0.width == s.surface_width
                &&& r->Ok_0->Surface_0.height == s.surface_height
                &&& r->Ok_0->Surface_0.transform == transform
            }
        },
    }
}

/// Resolves a style descriptor into a paint carrying the given
/// transform.  Shared by the fill-style and stroke-style setters.
pub fn paint_from_style(style: FillOrStrokeStyle, transform: Transform) -> (r: Result<
    Paint,
    PaintError,
>)
    requires
        match style {
            FillOrStrokeStyle::LinearGradient(l) => coord_ok(l.x0) && coord_ok(l.y0)
                && coord_ok(l.x1) && coord_ok(l.y1) && (forall|i: int|
                0 <= i < l.stops@.len() ==> 0 <= (#[trigger] l.stops@[i]).offset
                    <= crate::fx::FX_ONE),
            FillOrStrokeStyle::RadialGradient(g) => coord_ok(g.x0) && coord_ok(g.y0)
                && coord_ok(g.x1) && coord_ok(g.y1) && g.r1 <= crate::fx::COORD_LIMIT
                && (forall|i: int| 0 <= i < g.stops@.len() ==> 0 <= (#[trigger] g.stops@[i]).offset
                    <= crate::fx::FX_ONE),
            FillOrStrokeStyle::Surface(s) => s.surface_width <= crate::geom::MAX_DIM
                && s.surface_height <= crate::geom::MAX_DIM,
            _ => true,
        },
    ensures
        spec_paint_from_style(style, transform, r),
        r is Ok ==> paint_wf(r->Ok_0),
{
    match style {
        FillOrStrokeStyle::Color { red, green, blue, alpha } => Ok(
            Paint::Solid(Color::from_rgba8(red, green, blue, alpha)),
        ),
        FillOrStrokeStyle::LinearGradient(l) => {
            if l.stops.len() == 0 {
                Err(PaintError::EmptyGradientStops)
            } else if l.stops.len() == 1 {
                Ok(Paint::Solid(resolve_stop(l.stops[0]).color))
            } else if l.x0 == l.x1 && l.y0 == l.y1 {
                Ok(Paint::Solid(resolve_stop(l.stops[l.stops.len() - 1]).color))
            } else {
                Ok(Paint::LinearGradient(LinearGradientPaint {
                    start: PointFx { x: l.x0, y: l.y0 },
                    end: PointFx { x: l.x1, y: l.y1 },
                    stops: resolve_stops(&l.stops),
                    transform,
                }))
            }
        },
        FillOrStrokeStyle::RadialGradient(g) => {
            if g.r1 < 0 {
                Err(PaintError::NegativeRadius)
            } else if g.stops.len() == 0 {
                Err(PaintError::EmptyGradientStops)
            } else if g.stops.len() == 1 {
                Ok(Paint::Solid(resolve_stop(g.stops[0]).color))
            } else if g.x0 == g.x1 && g.y0 == g.y1 && g.r1 == 0 {
                Ok(Paint::Solid(resolve_stop(g.stops[g.stops.len() - 1]).color))
            } else {
                Ok(Paint::RadialGradient(RadialGradientPaint {
                    start: PointFx { x: g.x0, y: g.y0 },
                    end: PointFx { x: g.x1, y: g.y1 },
                    radius: g.r1,
                    stops: resolve_stops(&g.stops),
                    transform,
                }))
            }
        },
        FillOrStrokeStyle::Surface(s) => {
            if s.surface_width == 0 || s.surface_height == 0 {
                Err(PaintError::ZeroSurfaceSize)
            } else {
                proof {
                    crate::fx::lemma_abs_mul_le(
                        s.surface_width as int,
                        s.surface_height as int,
                        4294967295,
                        4294967295,
                    );
                }
                let need: u128 = (s.surface_width as u128) * (s.surface_height as u128) * 4;
                if (s.surface_data.len() as u128) < need {
                    Err(PaintError::SurfaceTooShort)
                } else {
                    Ok(Paint::Surface(SurfacePaint {
                        data: s.surface_data,
                        width: s.surface_width,
                        height: s.surface_height,
                        transform,
                    }))
                }
            }
        },
    }
}

impl Paint {
    /// Whether this paint is a collapsed zero-size gradient.  The
    /// gradient constructors fold every degenerate gradient into a
    /// solid paint, so no paint value records that it began as one and
    /// this always answers `false`: the documented fidelity gap.
    pub fn is_zero_size_gradient(&self) -> (r: bool)
        ensures
            r == false,
    {
        match self {
            Paint::Solid(_) => false,
            Paint::LinearGradient(_) => false,
            Paint::RadialGradient(_) => false,
            Paint::Surface(_) => false,
        }
    }
}

impl GradientStops {
    /// The stops, in the order they were supplied.
    pub fn as_slice(&self) -> (r: &Vec<GradientStop>)
        ensures
            r@ == self.stops@,
    {
        &self.stops
    }
}

/// Gathers resolved gradient stops, keeping the caller's order; the
/// canvas interpolation rules expect position-sorted stops, and this
/// backend leaves the ordering to the caller.
pub fn create_gradient_stops(gradient_stops: Vec<GradientStop>) -> (r: GradientStops)
    ensures
        r.stops@ == gradient_stops@,
{
    GradientStops { stops: gradient_stops }
}

} // verus!
