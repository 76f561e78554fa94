use canvas_core::angle::arc_sweep;
use canvas_core::color::Color;
use canvas_core::fx::{FX_ONE, FX_HALF, FULL_TURN, QUARTER_TURN};
use canvas_core::geom::{PointFx, RectFx};
use canvas_core::options::DrawOptions;
use canvas_core::paint::{
    Paint, PaintError, FillOrStrokeStyle, LinearGradientStyle, RadialGradientStyle,
    SurfaceStyle, CanvasGradientStop, GradientStop, create_gradient_stops, paint_from_style,
};
use canvas_core::path::{PathBuilder, PathCmd};
use canvas_core::target::PixmapTarget;
use canvas_core::transform::Transform;

#[test]
fn arc_sweep_full_circle_clockwise() {
    assert_eq!(arc_sweep(0, FULL_TURN, false), FULL_TURN);
}

#[test]
fn arc_sweep_full_circle_anticlockwise() {
    assert_eq!(arc_sweep(0, FULL_TURN, true), -FULL_TURN);
}

#[test]
fn arc_sweep_quarter() {
    assert_eq!(arc_sweep(0, QUARTER_TURN, false), QUARTER_TURN);
}

#[test]
fn arc_sweep_wraps_redundant_turns() {
    assert_eq!(
        arc_sweep(2 * FULL_TURN + QUARTER_TURN, 0, false),
        3 * QUARTER_TURN
    );
    assert_eq!(arc_sweep(3 * FULL_TURN, FULL_TURN, false), 0);
}

#[test]
fn arc_emits_connecting_line_and_eight_quads_for_a_circle() {
    let mut b = PathBuilder::new();
    b.arc(
        PointFx::new(3 * FX_ONE, 3 * FX_ONE),
        2 * FX_ONE,
        0,
        FULL_TURN,
        false,
    );
    let p = b.finish().unwrap();
    assert_eq!(p.len(), 9);
    assert_eq!(p.cmd_at(0), PathCmd::LineTo(PointFx::new(5 * FX_ONE, 3 * FX_ONE)));
    match p.cmd_at(2) {
        PathCmd::QuadTo(_, end) => {
            assert_eq!(end, PointFx::new(3 * FX_ONE, 5 * FX_ONE));
        },
        other => panic!("expected a quadratic segment, got {:?}", other),
    }
    match p.cmd_at(8) {
        PathCmd::QuadTo(_, end) => {
            assert_eq!(end, PointFx::new(5 * FX_ONE, 3 * FX_ONE));
        },
        other => panic!("expected a quadratic segment, got {:?}", other),
    }
}

#[test]
fn zero_sweep_arc_emits_only_the_connecting_line() {
    let mut b = PathBuilder::new();
    b.arc(PointFx::new(FX_ONE, FX_ONE), FX_ONE, 0, 0, false);
    let p = b.finish().unwrap();
    assert_eq!(p.len(), 1);
    assert_eq!(p.cmd_at(0), PathCmd::LineTo(PointFx::new(2 * FX_ONE, FX_ONE)));
}

#[test]
fn ellipse_honors_distinct_radii() {
    let mut b = PathBuilder::new();
    b.ellipse(
        PointFx::new(2 * FX_ONE, 2 * FX_ONE),
        2 * FX_ONE,
        FX_ONE,
        0,
        0,
        QUARTER_TURN,
        false,
    );
    let p = b.finish().unwrap();
    assert_eq!(p.cmd_at(0), PathCmd::LineTo(PointFx::new(4 * FX_ONE, 2 * FX_ONE)));
    match p.cmd_at(p.len() - 1) {
        PathCmd::QuadTo(_, end) => {
            assert_eq!(end, PointFx::new(2 * FX_ONE, 3 * FX_ONE));
        },
        other => panic!("expected a quadratic segment, got {:?}", other),
    }
}

#[test]
fn builder_tracks_current_point_and_finishes_once() {
    let mut b = PathBuilder::new();
    assert_eq!(b.get_current_point(), None);
    b.move_to(PointFx::new(5, 6));
    assert_eq!(b.get_current_point(), Some(PointFx::new(5, 6)));
    b.quadratic_curve_to(PointFx::new(7, 8), PointFx::new(9, 10));
    assert_eq!(b.get_current_point(), Some(PointFx::new(9, 10)));
    b.close();
    assert_eq!(b.get_current_point(), Some(PointFx::new(9, 10)));
    assert!(b.finish().is_some());
    assert!(b.finish().is_none());
}

#[test]
fn copy_to_builder_round_trips_commands() {
    let mut b = PathBuilder::new();
    b.move_to(PointFx::new(1, 2));
    b.bezier_curve_to(PointFx::new(3, 4), PointFx::new(5, 6), PointFx::new(7, 8));
    let p = b.finish().unwrap();
    let mut b2 = p.copy_to_builder();
    b2.line_to(PointFx::new(9, 9));
    let p2 = b2.finish().unwrap();
    assert_eq!(p2.len(), 3);
    assert_eq!(p2.cmd_at(0), PathCmd::MoveTo(PointFx::new(1, 2)));
    assert_eq!(p2.cmd_at(2), PathCmd::LineTo(PointFx::new(9, 9)));
}

#[test]
fn transformed_copy_applies_the_transform_to_every_point() {
    let mut b = PathBuilder::new();
    b.move_to(PointFx::new(0, 0));
    b.line_to(PointFx::new(FX_ONE, 0));
    let p = b.finish().unwrap();
    let shift = Transform::row_major(FX_ONE, 0, 0, FX_ONE, FX_ONE, 2 * FX_ONE);
    let p2 = p.transformed_copy_to_builder(&shift).finish().unwrap();
    assert_eq!(p2.cmd_at(0), PathCmd::MoveTo(PointFx::new(FX_ONE, 2 * FX_ONE)));
    assert_eq!(p2.cmd_at(1), PathCmd::LineTo(PointFx::new(2 * FX_ONE, 2 * FX_ONE)));
}

#[test]
fn contains_point_tests_vertex_membership_only() {
    let mut b = PathBuilder::new();
    b.move_to(PointFx::new(0, 0));
    b.line_to(PointFx::new(2 * FX_ONE, 0));
    b.line_to(PointFx::new(2 * FX_ONE, 2 * FX_ONE));
    b.close();
    let p = b.finish().unwrap();
    let id = Transform::identity();
    assert!(p.contains_point(2 * FX_ONE, 0, &id));
    assert!(!p.contains_point(FX_ONE, FX_HALF, &id), "interior points are not vertices");
}

#[test]
fn premultiplication_happens_once_at_construction() {
    assert_eq!(
        Color::from_rgba8(255, 255, 255, 128),
        Color { r: 128, g: 128, b: 128, a: 128 }
    );
    assert_eq!(Color::from_rgba8(0, 0, 0, 0), Color { r: 0, g: 0, b: 0, a: 0 });
    assert_eq!(Color::from_rgba8(255, 0, 255, 255), Color { r: 255, g: 0, b: 255, a: 255 });
}

fn stop(offset: i64, gray: u8, alpha: u8) -> CanvasGradientStop {
    CanvasGradientStop { offset, red: gray, green: gray, blue: gray, alpha }
}

#[test]
fn image_pattern_over_short_buffer_fails_with_bounds_error() {
    let style = FillOrStrokeStyle::Surface(SurfaceStyle {
        surface_data: vec![0; 15],
        surface_width: 2,
        surface_height: 2,
    });
    let r = paint_from_style(style, Transform::identity());
    assert!(matches!(r, Err(PaintError::SurfaceTooShort)));

    let ok = FillOrStrokeStyle::Surface(SurfaceStyle {
        surface_data: vec![0; 16],
        surface_width: 2,
        surface_height: 2,
    });
    assert!(paint_from_style(ok, Transform::identity()).is_ok());

    let zero = FillOrStrokeStyle::Surface(SurfaceStyle {
        surface_data: vec![],
        surface_width: 0,
        surface_height: 2,
    });
    assert!(matches!(
        paint_from_style(zero, Transform::identity()),
        Err(PaintError::ZeroSurfaceSize)
    ));
}

#[test]
fn gradient_construction_errors_and_collapses() {
    let empty = FillOrStrokeStyle::LinearGradient(LinearGradientStyle {
        x0: 0,
        y0: 0,
        x1: FX_ONE,
        y1: 0,
        stops: vec![],
    });
    assert!(matches!(
        paint_from_style(empty, Transform::identity()),
        Err(PaintError::EmptyGradientStops)
    ));

    let degenerate = FillOrStrokeStyle::LinearGradient(LinearGradientStyle {
        x0: 5,
        y0: 5,
        x1: 5,
        y1: 5,
        stops: vec![stop(0, 0, 255), stop(FX_ONE, 255, 255)],
    });
    match paint_from_style(degenerate, Transform::identity()).unwrap() {
        Paint::Solid(c) => assert_eq!(c, Color { r: 255, g: 255, b: 255, a: 255 }),
        other => panic!("coincident endpoints must collapse to a solid, got {:?}", other),
    }

    let negative = FillOrStrokeStyle::RadialGradient(RadialGradientStyle {
        x0: 0,
        y0: 0,
        r0: 0,
        x1: FX_ONE,
        y1: 0,
        r1: -1,
        stops: vec![stop(0, 0, 255), stop(FX_ONE, 255, 255)],
    });
    assert!(matches!(
        paint_from_style(negative, Transform::identity()),
        Err(PaintError::NegativeRadius)
    ));

    let single = FillOrStrokeStyle::RadialGradient(RadialGradientStyle {
        x0: 0,
        y0: 0,
        r0: 0,
        x1: FX_ONE,
        y1: 0,
        r1: FX_ONE,
        stops: vec![stop(0, 7, 255)],
    });
    match paint_from_style(single, Transform::identity()).unwrap() {
        Paint::Solid(c) => assert_eq!(c, Color { r: 7, g: 7, b: 7, a: 255 }),
        other => panic!("a single stop must collapse to a solid, got {:?}", other),
    }
}

#[test]
fn no_paint_reports_itself_as_zero_size_gradient() {
    let p = Paint::Solid(Color::black());
    assert!(!p.is_zero_size_gradient());
    let g = paint_from_style(
        FillOrStrokeStyle::LinearGradient(LinearGradientStyle {
            x0: 0,
            y0: 0,
            x1: FX_ONE,
            y1: 0,
            stops: vec![stop(0, 0, 255), stop(FX_ONE, 255, 255)],
        }),
        Transform::identity(),
    )
    .unwrap();
    assert!(!g.is_zero_size_gradient());
}

#[test]
fn linear_gradient_interpolates_midway() {
    let style = FillOrStrokeStyle::LinearGradient(LinearGradientStyle {
        x0: 0,
        y0: 0,
        x1: FX_ONE,
        y1: 0,
        stops: vec![stop(0, 0, 255), stop(FX_ONE, 255, 255)],
    });
    let paint = paint_from_style(style, Transform::identity()).unwrap();
    let mut t = PixmapTarget::new_target(1, 1).unwrap();
    t.fill_rect(
        &RectFx::new(0, 0, FX_ONE, FX_ONE),
        &paint,
        &DrawOptions::default_options(),
    );
    let s = t.snapshot();
    assert_eq!(&s[0..4], &[127, 127, 127, 255]);
}

#[test]
fn radial_gradient_shades_by_distance_from_the_circle() {
    let style = FillOrStrokeStyle::RadialGradient(RadialGradientStyle {
        x0: 0,
        y0: 0,
        r0: 0,
        x1: 0,
        y1: 0,
        r1: FX_ONE,
        stops: vec![stop(0, 0, 255), stop(FX_ONE, 255, 255)],
    });
    let paint = paint_from_style(style, Transform::identity()).unwrap();
    let mut t = PixmapTarget::new_target(1, 1).unwrap();
    t.fill_rect(
        &RectFx::new(0, 0, FX_ONE, FX_ONE),
        &paint,
        &DrawOptions::default_options(),
    );
    // The pixel center sits at distance isqrt(2) / 2 of a unit from the
    // circle's center: 46340 fixed-point units into the ramp.
    let s = t.snapshot();
    assert_eq!(&s[0..4], &[180, 180, 180, 255]);
}

#[test]
fn gradient_stops_keep_caller_order() {
    let stops = vec![
        GradientStop { offset: FX_ONE, color: Color::black() },
        GradientStop { offset: 0, color: Color::transparent() },
    ];
    let gathered = create_gradient_stops(stops.clone());
    assert_eq!(gathered.as_slice().as_slice(), stops.as_slice());
}

#[test]
fn font_queries_on_garbage_bytes_yield_nothing() {
    let t = canvas_core::font::Test::new(vec![1, 2, 3, 4]);
    assert_eq!(t.bytes(), &[1, 2, 3, 4]);
    assert_eq!(t.glyph_index('a'), None);
    assert!(t.table_for_tag(0x68656164).is_none());
    assert!(t.family_name().is_none());
    assert!(t.face_name().is_none());
    assert!(!t.can_do_fast_shaping());
}

#[test]
fn font_table_wraps_its_bytes() {
    let table = canvas_core::font::FontTable::new(vec![9, 9, 9]);
    assert_eq!(table.buffer(), &[9, 9, 9]);
}
