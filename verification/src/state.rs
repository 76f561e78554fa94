//! The per-context paint state and the backend entry points that
//! mutate it.

use vstd::prelude::*;
use crate::color::{Color, color_wf, spec_premul_color};
use crate::comp::{BlendMode, CompositionOrBlending, spec_blend_mode_for, blend_mode_for};
use crate::fx::FX_ONE;
use crate::geom::SizeI;
use crate::options::{DrawOptions, StrokeOptions};
use crate::paint::{Paint, PaintError, FillOrStrokeStyle, paint_from_style, spec_paint_from_style, paint_wf};
use crate::target::{PixmapTarget, CanvasError, target_wf};
use crate::transform::Transform;

verus! {

/// Horizontal text alignment.
#[derive(Clone, Copy, Debug, PartialEq, Eq, Structural)]
pub enum TextAlign {
    Start,
    End,
    Left,
    Right,
    Center,
}

/// Vertical text baseline.
#[derive(Clone, Copy, Debug, PartialEq, Eq, Structural)]
pub enum TextBaseline {
    Top,
    Hanging,
    Middle,
    Alphabetic,
    Ideographic,
    Bottom,
}

/// The mutable style bundle of one drawing context.
#[derive(Clone, Debug)]
pub struct CanvasPaintState {
    pub draw_options: DrawOptions,
    pub fill_style: Paint,
    pub stroke_style: Paint,
    pub stroke_opts: StrokeOptions,
    pub transform: Transform,
    pub shadow_offset_x: i64,
    pub shadow_offset_y: i64,
    pub shadow_blur: i64,
    pub shadow_color: Color,
    pub text_align: TextAlign,
    pub text_baseline: TextBaseline,
}

/// The freshly initialized paint state: source-over at full alpha,
/// opaque black fill and stroke, default stroke geometry, the identity
/// transform, no shadow, and the default text placement.
pub open spec fn spec_default_state(s: CanvasPaintState) -> bool {
    &&& s.draw_options == (DrawOptions { blend_mode: BlendMode::SourceOver, alpha: FX_ONE })
    &&& s.fill_style == Paint::Solid(Color { r: 0, g: 0, b: 0, a: 255 })
    &&& s.stroke_style == Paint::Solid(Color { r: 0, g: 0, b: 0, a: 255 })
    &&& s.stroke_opts == (StrokeOptions {
        width: FX_ONE,
        miter_limit: 262144,
        line_join: crate::options::LineJoin::Miter,
        line_cap: crate::options::LineCap::Butt,
    })
    &&& s.transform == (Transform { m11: FX_ONE, m12: 0, m21: 0, m22: FX_ONE, m31: 0, m32: 0 })
    &&& s.shadow_offset_x == 0
    &&& s.shadow_offset_y == 0
    &&& s.shadow_blur == 0
    &&& s.shadow_color == (Color { r: 0, g: 0, b: 0, a: 0 })
    &&& s.text_align == TextAlign::Start
    &&& s.text_baseline == TextBaseline::Alphabetic
}

impl CanvasPaintState {
    /// Builds the initial paint state.
    pub fn new() -> (s: CanvasPaintState)
        ensures
            spec_default_state(s),
    {
        CanvasPaintState {
            draw_options: DrawOptions::default_options(),
            fill_style: Paint::Solid(Color::black()),
            stroke_style: Paint::Solid(Color::black()),
            stroke_opts: StrokeOptions::default_options(),
            transform: Transform::identity(),
            shadow_offset_x: 0,
            shadow_offset_y: 0,
            shadow_blur: 0,
            shadow_color: Color::transparent(),
            text_align: TextAlign::Start,
            text_baseline: TextBaseline::Alphabetic,
        }
    }
}

/// The backend: translates abstract canvas values into this crate's
/// concrete paints, blend modes and targets, and owns paint-state
/// resets.
pub struct TinySkiaBackend;

impl TinySkiaBackend {
    /// The blend mode a draw-options bundle composites with.
    pub fn get_composition_op(&self, opts: &DrawOptions) -> (r: BlendMode)
        ensures
            r == opts.blend_mode,
    {
        opts.blend_mode
    }

    /// Whether a shadow color would paint anything: any non-zero
    /// alpha.
    pub fn need_to_draw_shadow(&self, color: &Color) -> (r: bool)
        ensures
            r == (color.a != 0),
    {
        color.a != 0
    }

    /// Stores a shadow color, premultiplying it exactly once.
    pub fn set_shadow_color(
        &mut self,
        red: u8,
        green: u8,
        blue: u8,
        alpha: u8,
        state: &mut CanvasPaintState,
    )
        ensures
            *final(state) == (CanvasPaintState {
                shadow_color: spec_premul_color(red, green, blue, alpha),
                ..*old(state)
            }),
            color_wf(final(state).shadow_color),
    {
        state.shadow_color = Color::from_rgba8(red, green, blue, alpha);
    }

    /// Resolves a style into the fill paint, carrying the target's
    /// current transform; a degenerate style leaves the state
    /// untouched and reports the error.
    pub fn set_fill_style(
        &mut self,
        style: FillOrStrokeStyle,
        state: &mut CanvasPaintState,
        drawtarget: &PixmapTarget,
    ) -> (r: Result<(), PaintError>)
        requires
            style_geometry_ok(style),
        ensures
            r is Ok ==> {
                &&& *final(state) == (CanvasPaintState {
                    fill_style: final(state).fill_style,
                    ..*old(state)
                })
                &&& spec_paint_from_style(
                    style,
                    drawtarget@.transform,
                    Result::<Paint, PaintError>::Ok(final(state).fill_style),
                )
                &&& paint_wf(final(state).fill_style)
            },
            r is Err ==> *final(state) == *old(state) && spec_paint_from_style(
                style,
                drawtarget@.transform,
                Result::<Paint, PaintError>::Err(r->Err_0),
            ),
    {
        match paint_from_style(style, drawtarget.get_transform()) {
            Ok(p) => {
                state.fill_style = p;
                Ok(())
            },
            Err(e) => Err(e),
        }
    }

    /// Resolves a style into the stroke paint, carrying the target's
    /// current transform; a degenerate style leaves the state
    /// untouched and reports the error.
    pub fn set_stroke_style(
        &mut self,
        style: FillOrStrokeStyle,
        state: &mut CanvasPaintState,
        drawtarget: &PixmapTarget,
    ) -> (r: Result<(), PaintError>)
        requires
            style_geometry_ok(style),
        ensures
            r is Ok ==> {
                &&& *final(state) == (CanvasPaintState {
                    stroke_style: final(state).stroke_style,
                    ..*old(state)
                })
                &&& spec_paint_from_style(
                    style,
                    drawtarget@.transform,
                    Result::<Paint, PaintError>::Ok(final(state).stroke_style),
                )
                &&& paint_wf(final(state).stroke_style)
            },
            r is Err ==> *final(state) == *old(state) && spec_paint_from_style(
                style,
                drawtarget@.transform,
                Result::<Paint, PaintError>::Err(r->Err_0),
            ),
    {
        match paint_from_style(style, drawtarget.get_transform()) {
            Ok(p) => {
                state.stroke_style = p;
                Ok(())
            },
            Err(e) => Err(e),
        }
    }

    /// Stores the blend mode for an abstract composite-or-blend value;
    /// the mapping is total over both enums.
    pub fn set_global_composition(
        &mut self,
        op: CompositionOrBlending,
        state: &mut CanvasPaintState,
    )
        ensures
            *final(state) == (CanvasPaintState {
                draw_options: DrawOptions {
                    blend_mode: spec_blend_mode_for(op),
                    ..old(state).draw_options
                },
                ..*old(state)
            }),
    {
        let mode = blend_mode_for(op);
        state.draw_options.set_blend_mode(mode);
    }

    /// Allocates a fresh draw target of the given size.
    pub fn create_drawtarget(&self, size: SizeI) -> (r: Result<PixmapTarget, CanvasError>)
        ensures
            r is Ok <==> (1 <= size.width <= crate::geom::MAX_DIM && 1 <= size.height
                <= crate::geom::MAX_DIM),
            r is Ok ==> target_wf(r->Ok_0@) && r->Ok_0@.width == size.width
                && r->Ok_0@.height == size.height,
    {
        if size.width < 1 || size.height < 1 {
            return Err(CanvasError::InvalidSize);
        }
        PixmapTarget::new_target(size.width as u32, size.height as u32)
    }

    /// Replaces a paint state wholesale with a fresh one.
    pub fn recreate_paint_state(&self, _state: &CanvasPaintState) -> (s: CanvasPaintState)
        ensures
            spec_default_state(s),
    {
        CanvasPaintState::new()
    }
}

/// The machine-limit bounds the style setters ask of gradient
/// geometry and surface dimensions.
pub open spec fn style_geometry_ok(style: FillOrStrokeStyle) -> bool {
    match style {
        FillOrStrokeStyle::LinearGradient(l) => crate::fx::coord_ok(l.x0)
            && crate::fx::coord_ok(l.y0) && crate::fx::coord_ok(l.x1) && crate::fx::coord_ok(
            l.y1,
        ) && (forall|i: int| 0 <= i < l.stops@.len() ==> 0 <= (#[trigger] l.stops@[i]).offset
            <= FX_ONE),
        FillOrStrokeStyle::RadialGradient(g) => crate::fx::coord_ok(g.x0)
            && crate::fx::coord_ok(g.y0) && crate::fx::coord_ok(g.x1) && crate::fx::coord_ok(
            g.y1,
        ) && g.r1 <= crate::fx::COORD_LIMIT && (forall|i: int| 0 <= i < g.stops@.len()
            ==> 0 <= (#[trigger] g.stops@[i]).offset <= FX_ONE),
        FillOrStrokeStyle::Surface(s) => s.surface_width <= crate::geom::MAX_DIM
            && s.surface_height <= crate::geom::MAX_DIM,
        _ => true,
    }
}

} // verus!
