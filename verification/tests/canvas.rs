use canvas_core::color::Color;
use canvas_core::comp::{BlendMode, CompositionOrBlending, CompositionStyle, BlendingStyle, blend_mode_for};
use canvas_core::fx::{FX_ONE, FX_HALF};
use canvas_core::geom::{PointFx, RectFx, RectI, PointI, SizeI};
use canvas_core::options::{DrawOptions, StrokeOptions, LineJoinStyle};
use canvas_core::paint::Paint;
use canvas_core::path::PathBuilder;
use canvas_core::state::{CanvasPaintState, TinySkiaBackend};
use canvas_core::target::{PixmapTarget, CanvasError};
use canvas_core::transform::Transform;

fn px(buf: &[u8], w: u32, x: u32, y: u32) -> [u8; 4] {
    let i = 4 * (y * w + x) as usize;
    [buf[i], buf[i + 1], buf[i + 2], buf[i + 3]]
}

fn opaque_red() -> Paint {
    Paint::Solid(Color::from_rgba8(255, 0, 0, 255))
}

fn whole_rect(w: i64, h: i64) -> RectFx {
    RectFx::new(0, 0, w * FX_ONE, h * FX_ONE)
}

fn rect_path(x0: i64, y0: i64, x1: i64, y1: i64) -> canvas_core::path::Path {
    let mut b = PathBuilder::new();
    b.move_to(PointFx::new(x0, y0));
    b.line_to(PointFx::new(x1, y0));
    b.line_to(PointFx::new(x1, y1));
    b.line_to(PointFx::new(x0, y1));
    b.close();
    b.finish().unwrap()
}

#[test]
fn fill_rect_paints_every_pixel() {
    let mut t = PixmapTarget::new_target(2, 2).unwrap();
    t.fill_rect(&whole_rect(2, 2), &opaque_red(), &DrawOptions::default_options());
    let s = t.snapshot();
    for y in 0..2 {
        for x in 0..2 {
            assert_eq!(px(s, 2, x, y), [255, 0, 0, 255]);
        }
    }
}

#[test]
fn clear_rect_zeroes_exactly_the_rect_region() {
    let mut t = PixmapTarget::new_target(2, 2).unwrap();
    t.fill_rect(&whole_rect(2, 2), &opaque_red(), &DrawOptions::default_options());
    t.clear_rect(&RectFx::new(0, 0, FX_ONE, FX_ONE));
    let s = t.snapshot();
    assert_eq!(px(s, 2, 0, 0), [0, 0, 0, 0]);
    assert_eq!(px(s, 2, 1, 0), [255, 0, 0, 255]);
    assert_eq!(px(s, 2, 0, 1), [255, 0, 0, 255]);
    assert_eq!(px(s, 2, 1, 1), [255, 0, 0, 255]);
}

#[test]
fn clear_composite_mode_through_global_composition() {
    let mut backend = TinySkiaBackend;
    let mut state = CanvasPaintState::new();
    backend.set_global_composition(
        CompositionOrBlending::Composition(CompositionStyle::Clear),
        &mut state,
    );
    let mut t = PixmapTarget::new_target(1, 1).unwrap();
    t.fill_rect(&whole_rect(1, 1), &opaque_red(), &DrawOptions::default_options());
    t.fill_rect(&whole_rect(1, 1), &opaque_red(), &state.draw_options);
    assert_eq!(px(t.snapshot(), 1, 0, 0), [0, 0, 0, 0]);
}

#[test]
fn clip_push_pop_restores_unclipped_painting() {
    let mut a = PixmapTarget::new_target(3, 3).unwrap();
    let mut b = PixmapTarget::new_target(3, 3).unwrap();
    let p1 = rect_path(0, 0, FX_ONE, FX_ONE);
    let p2 = rect_path(FX_ONE, FX_ONE, 2 * FX_ONE, 2 * FX_ONE);
    a.push_clip(&p1);
    a.push_clip(&p2);
    a.pop_clip();
    a.pop_clip();
    let opts = DrawOptions::default_options();
    a.fill_rect(&whole_rect(3, 3), &opaque_red(), &opts);
    b.fill_rect(&whole_rect(3, 3), &opaque_red(), &opts);
    assert_eq!(a.snapshot(), b.snapshot());
}

#[test]
fn clip_limits_painting_to_the_clip_region() {
    let mut t = PixmapTarget::new_target(3, 3).unwrap();
    let clip = rect_path(FX_ONE, FX_ONE, 2 * FX_ONE, 2 * FX_ONE);
    t.push_clip(&clip);
    t.fill_rect(&whole_rect(3, 3), &opaque_red(), &DrawOptions::default_options());
    let s = t.snapshot();
    for y in 0..3 {
        for x in 0..3 {
            let expected = if x == 1 && y == 1 { [255, 0, 0, 255] } else { [0, 0, 0, 0] };
            assert_eq!(px(s, 3, x, y), expected, "pixel {} {}", x, y);
        }
    }
    t.pop_clip();
    t.fill_rect(&whole_rect(3, 3), &opaque_red(), &DrawOptions::default_options());
    let s = t.snapshot();
    for y in 0..3 {
        for x in 0..3 {
            assert_eq!(px(s, 3, x, y), [255, 0, 0, 255]);
        }
    }
}

#[test]
fn fill_rect_follows_the_current_transform() {
    let mut t = PixmapTarget::new_target(2, 1).unwrap();
    t.set_transform(&Transform::row_major(FX_ONE, 0, 0, FX_ONE, FX_ONE, 0));
    t.fill_rect(
        &RectFx::new(0, 0, FX_ONE, FX_ONE),
        &opaque_red(),
        &DrawOptions::default_options(),
    );
    let s = t.snapshot();
    assert_eq!(px(s, 2, 0, 0), [0, 0, 0, 0]);
    assert_eq!(px(s, 2, 1, 0), [255, 0, 0, 255], "the unit translation moves the fill");
}

#[test]
fn singular_transform_draws_nothing() {
    let mut t = PixmapTarget::new_target(1, 1).unwrap();
    t.set_transform(&Transform::row_major(0, 0, 0, 0, 0, 0));
    t.fill_rect(&whole_rect(1, 1), &opaque_red(), &DrawOptions::default_options());
    assert_eq!(px(t.snapshot(), 1, 0, 0), [0, 0, 0, 0]);
}

#[test]
fn transform_round_trips_exactly() {
    let mut t = PixmapTarget::new_target(1, 1).unwrap();
    let m = Transform::row_major(123, -456, 789000, -1, i64::MAX, i64::MIN);
    t.set_transform(&m);
    assert_eq!(t.get_transform(), m);
    let m2 = Transform::identity();
    t.set_transform(&m2);
    assert_eq!(t.get_transform(), m2);
}

#[test]
fn snapshot_owned_is_an_unaffected_copy() {
    let mut t = PixmapTarget::new_target(2, 1).unwrap();
    t.fill_rect(&whole_rect(2, 1), &opaque_red(), &DrawOptions::default_options());
    let owned = t.snapshot_data_owned();
    assert_eq!(owned.as_slice(), t.snapshot());
    t.clear_rect(&whole_rect(2, 1));
    assert_eq!(px(&owned, 2, 0, 0), [255, 0, 0, 255]);
    assert_eq!(px(t.snapshot(), 2, 0, 0), [0, 0, 0, 0]);
}

#[test]
fn stroke_line_round_join_gives_round_caps() {
    let start = PointFx::new(2 * FX_ONE + FX_HALF, FX_HALF);
    let end = PointFx::new(4 * FX_ONE + FX_HALF, FX_HALF);
    let mut opts = StrokeOptions::default_options();
    opts.set_line_width(2 * FX_ONE);
    opts.set_line_join(LineJoinStyle::Round);

    let mut t = PixmapTarget::new_target(8, 1).unwrap();
    t.stroke_line(start, end, &opaque_red(), &opts, &DrawOptions::default_options());
    let s = t.snapshot();
    assert_eq!(px(s, 8, 3, 0), [255, 0, 0, 255]);
    assert_eq!(px(s, 8, 5, 0), [255, 0, 0, 255], "round cap extends past the endpoint");
    assert_eq!(px(s, 8, 7, 0), [0, 0, 0, 0]);
}

#[test]
fn stroke_line_other_joins_give_butt_caps() {
    let start = PointFx::new(2 * FX_ONE + FX_HALF, FX_HALF);
    let end = PointFx::new(4 * FX_ONE + FX_HALF, FX_HALF);
    for join in [LineJoinStyle::Miter, LineJoinStyle::Bevel] {
        let mut opts = StrokeOptions::default_options();
        opts.set_line_width(2 * FX_ONE);
        opts.set_line_join(join);
        let mut t = PixmapTarget::new_target(8, 1).unwrap();
        t.stroke_line(start, end, &opaque_red(), &opts, &DrawOptions::default_options());
        let s = t.snapshot();
        assert_eq!(px(s, 8, 3, 0), [255, 0, 0, 255]);
        assert_eq!(px(s, 8, 5, 0), [0, 0, 0, 0], "butt cap stops at the endpoint");
    }
}

#[test]
fn stroke_rect_paints_outline_not_center() {
    let mut t = PixmapTarget::new_target(3, 3).unwrap();
    let mut opts = StrokeOptions::default_options();
    opts.set_line_width(FX_ONE);
    let r = RectFx::new(FX_HALF, FX_HALF, 2 * FX_ONE, 2 * FX_ONE);
    t.stroke_rect(&r, &opaque_red(), &opts, &DrawOptions::default_options());
    let s = t.snapshot();
    assert_eq!(px(s, 3, 0, 0), [255, 0, 0, 255]);
    assert_eq!(px(s, 3, 1, 1), [0, 0, 0, 0], "the rectangle's inside stays unpainted");
}

#[test]
fn fill_path_uses_nonzero_winding() {
    let mut t = PixmapTarget::new_target(3, 3).unwrap();
    let p = rect_path(0, 0, 2 * FX_ONE, 2 * FX_ONE);
    t.fill(&p, &opaque_red(), &DrawOptions::default_options());
    let s = t.snapshot();
    assert_eq!(px(s, 3, 0, 0), [255, 0, 0, 255]);
    assert_eq!(px(s, 3, 1, 1), [255, 0, 0, 255]);
    assert_eq!(px(s, 3, 2, 2), [0, 0, 0, 0]);
}

#[test]
fn copy_surface_replaces_pixels_directly() {
    let mut t = PixmapTarget::new_target(2, 2).unwrap();
    let surface: Vec<u8> = vec![9, 8, 7, 6];
    let r = t.copy_surface(&surface, &RectI { x: 0, y: 0, w: 1, h: 1 }, &PointI { x: 1, y: 1 });
    assert!(r.is_ok());
    let s = t.snapshot();
    assert_eq!(px(s, 2, 1, 1), [9, 8, 7, 6]);
    assert_eq!(px(s, 2, 0, 0), [0, 0, 0, 0]);
}

#[test]
fn copy_surface_rejects_short_buffers() {
    let mut t = PixmapTarget::new_target(2, 2).unwrap();
    let surface: Vec<u8> = vec![9, 8, 7];
    let r = t.copy_surface(&surface, &RectI { x: 0, y: 0, w: 1, h: 1 }, &PointI { x: 0, y: 0 });
    assert_eq!(r, Err(CanvasError::SurfaceTooShort));
}

#[test]
fn draw_surface_blits_through_a_pattern() {
    let mut t = PixmapTarget::new_target(1, 1).unwrap();
    let surface: Vec<u8> = vec![10, 20, 30, 255];
    let r = t.draw_surface(
        &surface,
        &RectFx::new(0, 0, FX_ONE, FX_ONE),
        &RectFx::new(0, 0, FX_ONE, FX_ONE),
        canvas_core::options::Filter::Bilinear,
        &DrawOptions::default_options(),
    );
    assert!(r.is_ok());
    assert_eq!(px(t.snapshot(), 1, 0, 0), [10, 20, 30, 255]);
}

#[test]
fn draw_surface_rejects_short_buffers() {
    let mut t = PixmapTarget::new_target(1, 1).unwrap();
    let surface: Vec<u8> = vec![10, 20, 30];
    let r = t.draw_surface(
        &surface,
        &RectFx::new(0, 0, FX_ONE, FX_ONE),
        &RectFx::new(0, 0, FX_ONE, FX_ONE),
        canvas_core::options::Filter::Nearest,
        &DrawOptions::default_options(),
    );
    assert_eq!(r, Err(CanvasError::SurfaceTooShort));
}

#[test]
fn opacity_scales_the_shader() {
    let mut t = PixmapTarget::new_target(1, 1).unwrap();
    t.set_opacity(FX_HALF);
    assert_eq!(t.get_opacity(), FX_HALF);
    t.fill_rect(&whole_rect(1, 1), &opaque_red(), &DrawOptions::default_options());
    assert_eq!(px(t.snapshot(), 1, 0, 0), [127, 0, 0, 127]);
}

#[test]
fn create_similar_draw_target_shares_state_with_fresh_buffer() {
    let mut t = PixmapTarget::new_target(2, 2).unwrap();
    let m = Transform::row_major(FX_ONE, 0, 0, FX_ONE, 7, 9);
    t.set_transform(&m);
    t.set_opacity(1234);
    t.fill_rect(&whole_rect(2, 2), &opaque_red(), &DrawOptions::default_options());
    let c = t.create_similar_draw_target(&SizeI { width: 1, height: 1 }).unwrap();
    assert_eq!(c.get_transform(), m);
    assert_eq!(c.get_opacity(), 1234);
    assert_eq!(c.snapshot(), &[0, 0, 0, 0]);
    assert!(matches!(
        t.create_similar_draw_target(&SizeI { width: 0, height: 5 }),
        Err(CanvasError::InvalidSize)
    ));
    let size = t.get_size();
    assert_eq!((size.width, size.height), (2, 2));
}

#[test]
fn new_target_rejects_degenerate_sizes() {
    assert!(matches!(PixmapTarget::new_target(0, 4), Err(CanvasError::InvalidSize)));
    assert!(matches!(PixmapTarget::new_target(4, 0), Err(CanvasError::InvalidSize)));
    assert!(PixmapTarget::new_target(4, 4).is_ok());
}

#[test]
fn target_sizes_at_the_dimension_bound() {
    assert!(PixmapTarget::new_target(16383, 1).is_ok());
    assert!(matches!(
        PixmapTarget::new_target(16384, 1),
        Err(CanvasError::InvalidSize)
    ));
}

#[test]
fn fill_style_resolved_through_the_backend_is_used_by_fills() {
    let mut backend = TinySkiaBackend;
    let mut state = CanvasPaintState::new();
    let t = PixmapTarget::new_target(1, 1).unwrap();
    let style = canvas_core::paint::FillOrStrokeStyle::Color {
        red: 0,
        green: 255,
        blue: 0,
        alpha: 255,
    };
    backend.set_fill_style(style, &mut state, &t).unwrap();
    let mut t = t;
    t.fill_rect(&whole_rect(1, 1), &state.fill_style, &state.draw_options);
    assert_eq!(px(t.snapshot(), 1, 0, 0), [0, 255, 0, 255]);
}

#[test]
fn composition_mapping_is_the_canvas_table() {
    assert_eq!(
        blend_mode_for(CompositionOrBlending::Composition(CompositionStyle::Copy)),
        BlendMode::Source
    );
    assert_eq!(
        blend_mode_for(CompositionOrBlending::Composition(CompositionStyle::Lighter)),
        BlendMode::Plus
    );
    assert_eq!(
        blend_mode_for(CompositionOrBlending::Composition(CompositionStyle::Clear)),
        BlendMode::Clear
    );
    assert_eq!(
        blend_mode_for(CompositionOrBlending::Composition(CompositionStyle::DestAtop)),
        BlendMode::DestinationAtop
    );
    assert_eq!(
        blend_mode_for(CompositionOrBlending::Blending(BlendingStyle::Multiply)),
        BlendMode::Multiply
    );
    assert_eq!(
        blend_mode_for(CompositionOrBlending::Blending(BlendingStyle::Luminosity)),
        BlendMode::Luminosity
    );
}

#[test]
fn backend_state_setters() {
    let mut backend = TinySkiaBackend;
    let mut state = CanvasPaintState::new();
    assert_eq!(state.draw_options.blend_mode, BlendMode::SourceOver);
    assert_eq!(state.draw_options.alpha, FX_ONE);

    assert!(!backend.need_to_draw_shadow(&state.shadow_color));
    backend.set_shadow_color(255, 255, 255, 128, &mut state);
    assert_eq!(state.shadow_color, Color { r: 128, g: 128, b: 128, a: 128 });
    assert!(backend.need_to_draw_shadow(&state.shadow_color));

    assert_eq!(backend.get_composition_op(&state.draw_options), BlendMode::SourceOver);

    let fresh = backend.recreate_paint_state(&state);
    assert_eq!(fresh.shadow_color, Color { r: 0, g: 0, b: 0, a: 0 });

    let t = backend.create_drawtarget(SizeI { width: 4, height: 4 }).unwrap();
    assert_eq!(t.get_transform(), Transform::identity());
    assert_eq!(
        backend
            .create_drawtarget(SizeI { width: -1, height: 4 })
            .map(|_| ())
            .unwrap_err(),
        CanvasError::InvalidSize
    );
}

#[test]
fn multiply_blend_follows_the_premultiplied_formula() {
    let mut t = PixmapTarget::new_target(1, 1).unwrap();
    t.fill_rect(&whole_rect(1, 1), &opaque_red(), &DrawOptions::default_options());
    let gray = Paint::Solid(Color::from_rgba8(128, 128, 128, 255));
    let mut opts = DrawOptions::default_options();
    opts.set_blend_mode(BlendMode::Multiply);
    t.fill_rect(&whole_rect(1, 1), &gray, &opts);
    assert_eq!(px(t.snapshot(), 1, 0, 0), [128, 0, 0, 255]);
}

#[test]
fn destination_in_keeps_destination_only_under_source_alpha() {
    let mut t = PixmapTarget::new_target(1, 1).unwrap();
    t.fill_rect(&whole_rect(1, 1), &opaque_red(), &DrawOptions::default_options());
    let clearer = Paint::Solid(Color::from_rgba8(0, 0, 0, 0));
    let mut opts = DrawOptions::default_options();
    opts.set_blend_mode(BlendMode::DestinationIn);
    t.fill_rect(&whole_rect(1, 1), &clearer, &opts);
    assert_eq!(px(t.snapshot(), 1, 0, 0), [0, 0, 0, 0]);
}

#[test]
fn fill_flattens_curves() {
    let mut b = PathBuilder::new();
    b.move_to(PointFx::new(0, 0));
    b.quadratic_curve_to(
        PointFx::new(3 * FX_ONE, 0),
        PointFx::new(3 * FX_ONE, 3 * FX_ONE),
    );
    b.line_to(PointFx::new(0, 3 * FX_ONE));
    b.close();
    let p = b.finish().unwrap();
    let mut t = PixmapTarget::new_target(3, 3).unwrap();
    t.fill(&p, &opaque_red(), &DrawOptions::default_options());
    let s = t.snapshot();
    assert_eq!(px(s, 3, 0, 1), [255, 0, 0, 255], "inside the curved wedge");
    assert_eq!(px(s, 3, 2, 0), [0, 0, 0, 0], "outside the curve's bulge");
}

#[test]
fn stroke_follows_an_open_path_without_closing_it() {
    let mut b = PathBuilder::new();
    b.move_to(PointFx::new(FX_HALF, FX_HALF));
    b.line_to(PointFx::new(2 * FX_ONE + FX_HALF, FX_HALF));
    b.line_to(PointFx::new(2 * FX_ONE + FX_HALF, 2 * FX_ONE + FX_HALF));
    let p = b.finish().unwrap();
    let mut opts = StrokeOptions::default_options();
    opts.set_line_width(FX_ONE);
    let mut t = PixmapTarget::new_target(3, 3).unwrap();
    t.stroke(&p, &opaque_red(), &opts, &DrawOptions::default_options());
    let s = t.snapshot();
    assert_eq!(px(s, 3, 1, 0), [255, 0, 0, 255], "on the first leg");
    assert_eq!(px(s, 3, 2, 1), [255, 0, 0, 255], "on the second leg");
    assert_eq!(px(s, 3, 0, 2), [0, 0, 0, 0], "no implicit closing segment");
}

#[test]
fn fill_text_is_a_stub() {
    let mut t = PixmapTarget::new_target(1, 1).unwrap();
    let before = t.snapshot_data_owned();
    t.fill_text(
        "hello",
        PointFx::new(0, 0),
        &opaque_red(),
        &DrawOptions::default_options(),
    );
    assert_eq!(before.as_slice(), t.snapshot());
}
