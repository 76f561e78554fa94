//! Path geometry: an immutable command sequence and its builder.
//!
//! A path is an ordered sequence of drawing commands in its own local
//! space.  The builder appends commands one call at a time; `finish`
//! seals it.  Arcs and ellipses are flattened at construction into a
//! connecting line and a run of quadratic curve segments, with the
//! sweep direction and angle wrapping of the canvas API.

use vstd::prelude::*;
use crate::fx::{
    FX_ONE, EIGHTH_TURN, COORD_LIMIT, angle_ok, spec_abs, spec_tdiv, tdiv128,
    tdiv64, spec_clamp_coord, ANGLE_LIMIT, FULL_TURN,
};
use crate::geom::{PointFx, point_ok, point_eq};
use crate::transform::{Transform, transform_ok, spec_apply, spec_sanitize};
use crate::angle::{
    spec_cos_turn, spec_sin_turn, spec_cos_q, spec_arc_sweep, spec_arc_start,
    cos_turn, sin_turn, arc_sweep, arc_start, cos_q, COSINE_DIV,
};

verus! {

/// One drawing command of a path, in local path space.
#[derive(Clone, Copy, Debug, PartialEq, Eq, Structural)]
pub enum PathCmd {
    MoveTo(PointFx),
    LineTo(PointFx),
    QuadTo(PointFx, PointFx),
    CubicTo(PointFx, PointFx, PointFx),
    Close,
}

/// Every point a command carries lies within the coordinate bound.
pub open spec fn cmd_ok(c: PathCmd) -> bool {
    match c {
        PathCmd::MoveTo(p) => point_ok(p),
        PathCmd::LineTo(p) => point_ok(p),
        PathCmd::QuadTo(c1, p) => point_ok(c1) && point_ok(p),
        PathCmd::CubicTo(c1, c2, p) => point_ok(c1) && point_ok(c2) && point_ok(p),
        PathCmd::Close => true,
    }
}

/// Every command of the sequence is within bounds.
pub open spec fn cmds_ok(s: Seq<PathCmd>) -> bool {
    forall|i: int| 0 <= i < s.len() ==> cmd_ok(#[trigger] s[i])
}

/// The last explicit point of a command sequence, skipping `Close`.
pub open spec fn spec_last_point(s: Seq<PathCmd>) -> Option<PointFx>
    decreases s.len(),
{
    if s.len() == 0 {
        None
    } else {
        match s.last() {
            PathCmd::MoveTo(p) => Some(p),
            PathCmd::LineTo(p) => Some(p),
            PathCmd::QuadTo(_, p) => Some(p),
            PathCmd::CubicTo(_, _, p) => Some(p),
            PathCmd::Close => spec_last_point(s.drop_last()),
        }
    }
}

/// Angle-magnitude bound accepted by the ellipse point helpers; wide
/// enough for every angle the arc flattener can produce.
pub const THETA_LIMIT: i64 = 562945658454016;

/// A point of an ellipse: the axis-aligned radius vector at `theta`,
/// rotated by `rot` and translated to the center, each step on the
/// fixed-point grid.
pub open spec fn spec_ellipse_point(center: PointFx, rx: i64, ry: i64, rot: int, theta: int) -> PointFx {
    let ux = spec_tdiv(rx * spec_cos_turn(theta), FX_ONE as int);
    let uy = spec_tdiv(ry * spec_sin_turn(theta), FX_ONE as int);
    let cr = spec_cos_turn(rot);
    let sr = spec_sin_turn(rot);
    PointFx {
        x: spec_clamp_coord(center.x + spec_tdiv(cr * ux - sr * uy, FX_ONE as int)),
        y: spec_clamp_coord(center.y + spec_tdiv(sr * ux + cr * uy, FX_ONE as int)),
    }
}

/// The control point of one quadratic arc segment: the ellipse point at
/// the segment's middle angle, pushed outward by the secant factor
/// `1 / cos(half-sweep)` that makes the quadratic's tangents meet.
pub open spec fn spec_ellipse_ctrl(
    center: PointFx,
    rx: i64,
    ry: i64,
    rot: int,
    theta: int,
    d: int,
) -> PointFx {
    let sx = spec_tdiv(spec_cos_turn(theta) * FX_ONE, d);
    let sy = spec_tdiv(spec_sin_turn(theta) * FX_ONE, d);
    let ux = spec_tdiv(rx * sx, FX_ONE as int);
    let uy = spec_tdiv(ry * sy, FX_ONE as int);
    let cr = spec_cos_turn(rot);
    let sr = spec_sin_turn(rot);
    PointFx {
        x: spec_clamp_coord(center.x + spec_tdiv(cr * ux - sr * uy, FX_ONE as int)),
        y: spec_clamp_coord(center.y + spec_tdiv(sr * ux + cr * uy, FX_ONE as int)),
    }
}

/// How many quadratic segments an arc of the given sweep flattens to:
/// none for an empty sweep, else enough to keep each segment within an
/// eighth of a turn.
pub open spec fn spec_arc_segments(sweep: int) -> int {
    if sweep == 0 {
        0
    } else {
        (spec_abs(sweep) - 1) / (EIGHTH_TURN as int) + 1
    }
}

/// The angle after `j` of `n` equal sub-sweeps.
pub open spec fn spec_arc_theta(s0: int, sweep: int, j: int, n: int) -> int {
    s0 + spec_tdiv(sweep * j, n)
}

/// The middle angle of sub-sweep `j` of `n`.
pub open spec fn spec_arc_mid(s0: int, sweep: int, j: int, n: int) -> int {
    s0 + spec_tdiv(sweep * (2 * j + 1), 2 * n)
}

/// Half of one sub-sweep's magnitude.
pub open spec fn spec_arc_half(sweep: int, n: int) -> int {
    spec_tdiv(spec_abs(sweep), 2 * n)
}

/// The secant denominator shared by all control points of one arc.
pub open spec fn spec_arc_denom(sweep: int, n: int) -> int {
    spec_cos_q(spec_arc_half(sweep, n))
}

/// The first `j` quadratic segments of an arc flattened into `n`.
pub open spec fn spec_arc_quads(
    center: PointFx,
    rx: i64,
    ry: i64,
    rot: int,
    s0: int,
    sweep: int,
    n: int,
    j: int,
) -> Seq<PathCmd>
    decreases j,
{
    if j <= 0 {
        Seq::<PathCmd>::empty()
    } else {
        spec_arc_quads(center, rx, ry, rot, s0, sweep, n, j - 1).push(
            PathCmd::QuadTo(
                spec_ellipse_ctrl(
                    center,
                    rx,
                    ry,
                    rot,
                    spec_arc_mid(s0, sweep, j - 1, n),
                    spec_arc_denom(sweep, n),
                ),
                spec_ellipse_point(center, rx, ry, rot, spec_arc_theta(s0, sweep, j, n)),
            ),
        )
    }
}

/// Everything one `ellipse` call appends: the connecting line to the
/// arc's start point, then the flattened quadratic segments.
pub open spec fn spec_arc_cmds(
    center: PointFx,
    rx: i64,
    ry: i64,
    rot: int,
    start: int,
    end: int,
    anticlockwise: bool,
) -> Seq<PathCmd> {
    let s0 = spec_arc_start(start, end, anticlockwise);
    let sweep = spec_arc_sweep(start, end, anticlockwise);
    let n = spec_arc_segments(sweep);
    seq![PathCmd::LineTo(spec_ellipse_point(center, rx, ry, rot, s0))]
        + spec_arc_quads(center, rx, ry, rot, s0, sweep, n, n)
}

/// Computes one ellipse point on the fixed-point grid.
fn ellipse_point(center: PointFx, rx: i64, ry: i64, rot: i64, theta: i64) -> (p: PointFx)
    requires
        point_ok(center),
        0 <= rx <= COORD_LIMIT,
        0 <= ry <= COORD_LIMIT,
        angle_ok(rot),
        -THETA_LIMIT <= theta <= THETA_LIMIT,
    ensures
        p == spec_ellipse_point(center, rx, ry, rot as int, theta as int),
        point_ok(p),
{
    let c = cos_turn(theta);
    let s = sin_turn(theta);
    let cr = cos_turn(rot);
    let sr = sin_turn(rot);
    proof {
        crate::fx::lemma_abs_mul_le(rx as int, c as int, COORD_LIMIT as int, FX_ONE as int);
        crate::fx::lemma_abs_mul_le(ry as int, s as int, COORD_LIMIT as int, FX_ONE as int);
    }
    let ux = tdiv64(rx * c, FX_ONE);
    let uy = tdiv64(ry * s, FX_ONE);
    proof {
        crate::fx::lemma_tdiv_abs_le(rx as int * c as int, FX_ONE as int, COORD_LIMIT as int * FX_ONE as int, FX_ONE as int);
        crate::fx::lemma_tdiv_abs_le(ry as int * s as int, FX_ONE as int, COORD_LIMIT as int * FX_ONE as int, FX_ONE as int);
        vstd::arithmetic::div_mod::lemma_div_by_multiple(COORD_LIMIT as int, FX_ONE as int);
        crate::fx::lemma_abs_mul_le(cr as int, ux as int, FX_ONE as int, COORD_LIMIT as int);
        crate::fx::lemma_abs_mul_le(sr as int, uy as int, FX_ONE as int, COORD_LIMIT as int);
        crate::fx::lemma_abs_mul_le(sr as int, ux as int, FX_ONE as int, COORD_LIMIT as int);
        crate::fx::lemma_abs_mul_le(cr as int, uy as int, FX_ONE as int, COORD_LIMIT as int);
    }
    let xr = tdiv64(cr * ux - sr * uy, FX_ONE);
    let yr = tdiv64(sr * ux + cr * uy, FX_ONE);
    PointFx {
        x: crate::fx::clamp_coord(center.x + xr),
        y: crate::fx::clamp_coord(center.y + yr),
    }
}

/// Computes one arc-segment control point on the fixed-point grid.
fn ellipse_ctrl(center: PointFx, rx: i64, ry: i64, rot: i64, theta: i64, d: i64) -> (p: PointFx)
    requires
        point_ok(center),
        0 <= rx <= COORD_LIMIT,
        0 <= ry <= COORD_LIMIT,
        angle_ok(rot),
        -THETA_LIMIT <= theta <= THETA_LIMIT,
        61440 <= d <= FX_ONE,
    ensures
        p == spec_ellipse_ctrl(center, rx, ry, rot as int, theta as int, d as int),
        point_ok(p),
{
    let c = cos_turn(theta);
    let s = sin_turn(theta);
    let cr = cos_turn(rot);
    let sr = sin_turn(rot);
    proof {
        crate::fx::lemma_abs_mul_le(c as int, FX_ONE as int, FX_ONE as int, FX_ONE as int);
        crate::fx::lemma_abs_mul_le(s as int, FX_ONE as int, FX_ONE as int, FX_ONE as int);
    }
    let sx = tdiv64(c * FX_ONE, d);
    let sy = tdiv64(s * FX_ONE, d);
    proof {
        crate::fx::lemma_tdiv_abs_le(c as int * FX_ONE as int, d as int, FX_ONE as int * FX_ONE as int, 61440);
        crate::fx::lemma_tdiv_abs_le(s as int * FX_ONE as int, d as int, FX_ONE as int * FX_ONE as int, 61440);
        crate::fx::lemma_abs_mul_le(rx as int, sx as int, COORD_LIMIT as int, 2 * FX_ONE as int);
        crate::fx::lemma_abs_mul_le(ry as int, sy as int, COORD_LIMIT as int, 2 * FX_ONE as int);
    }
    let ux = tdiv64(rx * sx, FX_ONE);
    let uy = tdiv64(ry * sy, FX_ONE);
    proof {
        crate::fx::lemma_tdiv_abs_le(rx as int * sx as int, FX_ONE as int, COORD_LIMIT as int * (2 * FX_ONE as int), FX_ONE as int);
        crate::fx::lemma_tdiv_abs_le(ry as int * sy as int, FX_ONE as int, COORD_LIMIT as int * (2 * FX_ONE as int), FX_ONE as int);
        vstd::arithmetic::div_mod::lemma_div_by_multiple(2 * COORD_LIMIT as int, FX_ONE as int);
        assert(COORD_LIMIT as int * (2 * FX_ONE as int) == (2 * COORD_LIMIT as int) * FX_ONE as int) by (nonlinear_arith);
        crate::fx::lemma_abs_mul_le(cr as int, ux as int, FX_ONE as int, 2 * COORD_LIMIT as int);
        crate::fx::lemma_abs_mul_le(sr as int, uy as int, FX_ONE as int, 2 * COORD_LIMIT as int);
        crate::fx::lemma_abs_mul_le(sr as int, ux as int, FX_ONE as int, 2 * COORD_LIMIT as int);
        crate::fx::lemma_abs_mul_le(cr as int, uy as int, FX_ONE as int, 2 * COORD_LIMIT as int);
    }
    let xr = tdiv64(cr * ux - sr * uy, FX_ONE);
    let yr = tdiv64(sr * ux + cr * uy, FX_ONE);
    PointFx {
        x: crate::fx::clamp_coord(center.x + xr),
        y: crate::fx::clamp_coord(center.y + yr),
    }
}

/// An immutable path: a sealed sequence of drawing commands.
#[derive(Clone, Debug)]
pub struct Path {
    cmds: Vec<PathCmd>,
}

impl View for Path {
    type V = Seq<PathCmd>;

    closed spec fn view(&self) -> Seq<PathCmd> {
        self.cmds@
    }
}

/// One command with every point it carries mapped through a transform.
pub open spec fn spec_transform_cmd(t: Transform, c: PathCmd) -> PathCmd {
    match c {
        PathCmd::MoveTo(p) => PathCmd::MoveTo(spec_apply(t, p)),
        PathCmd::LineTo(p) => PathCmd::LineTo(spec_apply(t, p)),
        PathCmd::QuadTo(c1, p) => PathCmd::QuadTo(spec_apply(t, c1), spec_apply(t, p)),
        PathCmd::CubicTo(c1, c2, p) => PathCmd::CubicTo(
            spec_apply(t, c1),
            spec_apply(t, c2),
            spec_apply(t, p),
        ),
        PathCmd::Close => PathCmd::Close,
    }
}

/// A command sequence with every point mapped through a transform.
pub open spec fn spec_transform_cmds(t: Transform, s: Seq<PathCmd>) -> Seq<PathCmd> {
    s.map_values(|c: PathCmd| spec_transform_cmd(t, c))
}

/// Whether one command, mapped through a transform, carries exactly the
/// given point (control points count, as in the vertex-membership test).
pub open spec fn spec_cmd_has_point(t: Transform, c: PathCmd, p: PointFx) -> bool {
    match c {
        PathCmd::MoveTo(q) => spec_apply(t, q) == p,
        PathCmd::LineTo(q) => spec_apply(t, q) == p,
        PathCmd::QuadTo(c1, q) => spec_apply(t, c1) == p || spec_apply(t, q) == p,
        PathCmd::CubicTo(c1, c2, q) => spec_apply(t, c1) == p || spec_apply(t, c2) == p
            || spec_apply(t, q) == p,
        PathCmd::Close => false,
    }
}

/// Whether any command of the sequence, mapped through the transform,
/// carries exactly the given point.
pub open spec fn spec_path_contains_point(t: Transform, s: Seq<PathCmd>, p: PointFx) -> bool {
    exists|i: int| 0 <= i < s.len() && spec_cmd_has_point(t, #[trigger] s[i], p)
}

impl Path {
    /// All commands are within bounds.
    pub open spec fn wf(&self) -> bool {
        cmds_ok(self@)
    }

    /// An exact copy of the path.
    pub fn duplicate(&self) -> (r: Path)
        ensures
            r@ == self@,
    {
        Path { cmds: self.cmds.clone() }
    }

    /// Clones the path's commands into a fresh builder.
    pub fn copy_to_builder(&self) -> (b: PathBuilder)
        ensures
            b@ == self@,
            !b.spec_done(),
    {
        PathBuilder { cmds: self.cmds.clone(), done: false }
    }

    /// Clones the path's commands into a fresh builder, mapping every
    /// point through the (saturated) transform.
    pub fn transformed_copy_to_builder(&self, transform: &Transform) -> (b: PathBuilder)
        requires
            self.wf(),
        ensures
            b@ == spec_transform_cmds(spec_sanitize(*transform), self@),
            !b.spec_done(),
            b.wf(),
    {
        let t = transform.sanitize();
        let mut out: Vec<PathCmd> = Vec::new();
        let n = self.cmds.len();
        for i in 0..n
            invariant
                n == self@.len(),
                self.wf(),
                t == spec_sanitize(*transform),
                transform_ok(t),
                out@ =~= spec_transform_cmds(t, self@.take(i as int)),
                cmds_ok(out@),
        {
            let c = match self.cmds[i] {
                PathCmd::MoveTo(p) => PathCmd::MoveTo(t.apply(p)),
                PathCmd::LineTo(p) => PathCmd::LineTo(t.apply(p)),
                PathCmd::QuadTo(c1, p) => PathCmd::QuadTo(t.apply(c1), t.apply(p)),
                PathCmd::CubicTo(c1, c2, p) => PathCmd::CubicTo(
                    t.apply(c1),
                    t.apply(c2),
                    t.apply(p),
                ),
                PathCmd::Close => PathCmd::Close,
            };
            out.push(c);
            proof {
                assert(self@.take(i + 1).drop_last() =~= self@.take(i as int));
                assert(spec_transform_cmds(t, self@.take(i + 1)) =~= spec_transform_cmds(
                    t,
                    self@.take(i as int),
                ).push(spec_transform_cmd(t, self@[i as int])));
            }
        }
        proof {
            assert(self@.take(n as int) =~= self@);
        }
        PathBuilder { cmds: out, done: false }
    }

    /// Whether the path, mapped through the (saturated) transform,
    /// carries the given point as one of its vertices.  This is a
    /// vertex-membership test, not a filled-region test: a point
    /// strictly inside a shape but on none of its vertices is not
    /// reported.
    pub fn contains_point(&self, x: i64, y: i64, path_transform: &Transform) -> (r: bool)
        requires
            self.wf(),
        ensures
            r == spec_path_contains_point(
                spec_sanitize(*path_transform),
                self@,
                PointFx { x, y },
            ),
    {
        let t = path_transform.sanitize();
        let p = PointFx { x, y };
        let n = self.cmds.len();
        for i in 0..n
            invariant
                n == self@.len(),
                self.wf(),
                t == spec_sanitize(*path_transform),
                transform_ok(t),
                p == (PointFx { x, y }),
                forall|k: int| 0 <= k < i ==> !spec_cmd_has_point(t, #[trigger] self@[k], p),
        {
            let hit = match self.cmds[i] {
                PathCmd::MoveTo(q) => point_eq(t.apply(q), p),
                PathCmd::LineTo(q) => point_eq(t.apply(q), p),
                PathCmd::QuadTo(c1, q) => point_eq(t.apply(c1), p) || point_eq(t.apply(q), p),
                PathCmd::CubicTo(c1, c2, q) => point_eq(t.apply(c1), p)
                    || point_eq(t.apply(c2), p) || point_eq(t.apply(q), p),
                PathCmd::Close => false,
            };
            if hit {
                return true;
            }
        }
        false
    }

    /// The number of commands.
    pub fn len(&self) -> (n: usize)
        ensures
            n == self@.len(),
    {
        self.cmds.len()
    }

    /// Reads one command.
    pub fn cmd_at(&self, i: usize) -> (c: PathCmd)
        requires
            i < self@.len(),
        ensures
            c == self@[i as int],
    {
        self.cmds[i]
    }
}

/// An incremental path builder.  After `finish` succeeds the builder is
/// spent and every further call fails or is rejected.
#[derive(Clone, Debug)]
pub struct PathBuilder {
    cmds: Vec<PathCmd>,
    done: bool,
}

impl View for PathBuilder {
    type V = Seq<PathCmd>;

    closed spec fn view(&self) -> Seq<PathCmd> {
        self.cmds@
    }
}

impl PathBuilder {
    /// Whether the builder has already been finished.
    pub closed spec fn spec_done(&self) -> bool {
        self.done
    }

    /// All commands gathered so far are within bounds.
    pub open spec fn wf(&self) -> bool {
        cmds_ok(self@)
    }

    /// Whether the builder has already been finished.
    pub fn is_done(&self) -> (r: bool)
        ensures
            r == self.spec_done(),
    {
        self.done
    }

    /// A fresh, empty builder.
    pub fn new() -> (b: PathBuilder)
        ensures
            b@ =~= Seq::<PathCmd>::empty(),
            !b.spec_done(),
            b.wf(),
    {
        PathBuilder { cmds: Vec::new(), done: false }
    }

    /// Starts a new subpath at the given point.
    pub fn move_to(&mut self, point: PointFx)
        requires
            !old(self).spec_done(),
            old(self).wf(),
            point_ok(point),
        ensures
            final(self)@ == old(self)@.push(PathCmd::MoveTo(point)),
            !final(self).spec_done(),
            final(self).wf(),
    {
        self.cmds.push(PathCmd::MoveTo(point));
    }

    /// Appends a straight segment to the given point.
    pub fn line_to(&mut self, point: PointFx)
        requires
            !old(self).spec_done(),
            old(self).wf(),
            point_ok(point),
        ensures
            final(self)@ == old(self)@.push(PathCmd::LineTo(point)),
            !final(self).spec_done(),
            final(self).wf(),
    {
        self.cmds.push(PathCmd::LineTo(point));
    }

    /// Appends a quadratic curve segment.
    pub fn quadratic_curve_to(&mut self, control_point: PointFx, end_point: PointFx)
        requires
            !old(self).spec_done(),
            old(self).wf(),
            point_ok(control_point),
            point_ok(end_point),
        ensures
            final(self)@ == old(self)@.push(PathCmd::QuadTo(control_point, end_point)),
            !final(self).spec_done(),
            final(self).wf(),
    {
        self.cmds.push(PathCmd::QuadTo(control_point, end_point));
    }

    /// Appends a cubic curve segment.
    pub fn bezier_curve_to(
        &mut self,
        control_point1: PointFx,
        control_point2: PointFx,
        control_point3: PointFx,
    )
        requires
            !old(self).spec_done(),
            old(self).wf(),
            point_ok(control_point1),
            point_ok(control_point2),
            point_ok(control_point3),
        ensures
            final(self)@ == old(self)@.push(
                PathCmd::CubicTo(control_point1, control_point2, control_point3),
            ),
            !final(self).spec_done(),
            final(self).wf(),
    {
        self.cmds.push(PathCmd::CubicTo(control_point1, control_point2, control_point3));
    }

    /// Seals the current subpath.
    pub fn close(&mut self)
        requires
            !old(self).spec_done(),
            old(self).wf(),
        ensures
            final(self)@ == old(self)@.push(PathCmd::Close),
            !final(self).spec_done(),
            final(self).wf(),
    {
        self.cmds.push(PathCmd::Close);
    }

    /// Appends an elliptical arc: a connecting line to the arc's start
    /// point, then quadratic segments covering the whole signed sweep,
    /// with the canvas angle-wrap and direction rules.
    pub fn ellipse(
        &mut self,
        origin: PointFx,
        radius_x: i64,
        radius_y: i64,
        rotation_angle: i64,
        start_angle: i64,
        end_angle: i64,
        anticlockwise: bool,
    )
        requires
            !old(self).spec_done(),
            old(self).wf(),
            point_ok(origin),
            0 <= radius_x <= COORD_LIMIT,
            0 <= radius_y <= COORD_LIMIT,
            angle_ok(rotation_angle),
            angle_ok(start_angle),
            angle_ok(end_angle),
        ensures
            final(self)@ == old(self)@ + spec_arc_cmds(
                origin,
                radius_x,
                radius_y,
                rotation_angle as int,
                start_angle as int,
                end_angle as int,
                anticlockwise,
            ),
            !final(self).spec_done(),
            final(self).wf(),
    {
        let ghost base = self@;
        let s0 = arc_start(start_angle, end_angle, anticlockwise);
        let sweep = arc_sweep(start_angle, end_angle, anticlockwise);
        let p0 = ellipse_point(origin, radius_x, radius_y, rotation_angle, s0);
        self.line_to(p0);
        if sweep == 0 {
            proof {
                assert(base + spec_arc_cmds(
                    origin,
                    radius_x,
                    radius_y,
                    rotation_angle as int,
                    start_angle as int,
                    end_angle as int,
                    anticlockwise,
                ) =~= base.push(PathCmd::LineTo(p0)));
            }
            return;
        }
        let abs_sweep = if sweep < 0 { -sweep } else { sweep };
        let n = (abs_sweep - 1) / EIGHTH_TURN + 1;
        proof {
            vstd::arithmetic::div_mod::lemma_div_pos_is_pos(abs_sweep as int - 1, EIGHTH_TURN as int);
            vstd::arithmetic::div_mod::lemma_div_is_ordered(
                abs_sweep as int - 1,
                2 * ANGLE_LIMIT as int + FULL_TURN as int,
                EIGHTH_TURN as int,
            );
            vstd::arithmetic::div_mod::lemma_fundamental_div_mod(abs_sweep as int - 1, EIGHTH_TURN as int);
            assert(abs_sweep as int <= n as int * EIGHTH_TURN as int) by (nonlinear_arith)
                requires
                    abs_sweep as int - 1 == EIGHTH_TURN as int * ((abs_sweep as int - 1) / EIGHTH_TURN as int)
                        + (abs_sweep as int - 1) % EIGHTH_TURN as int,
                    0 <= (abs_sweep as int - 1) % (EIGHTH_TURN as int),
                    (abs_sweep as int - 1) % (EIGHTH_TURN as int) < EIGHTH_TURN as int,
                    n as int == (abs_sweep as int - 1) / EIGHTH_TURN as int + 1;
        }
        let half = tdiv64(abs_sweep, 2 * n);
        proof {
            crate::fx::lemma_tdiv_abs(abs_sweep as int, 2 * n as int);
            vstd::arithmetic::div_mod::lemma_div_pos_is_pos(abs_sweep as int, 2 * n as int);
            vstd::arithmetic::div_mod::lemma_div_is_ordered(
                abs_sweep as int,
                n as int * EIGHTH_TURN as int,
                2 * n as int,
            );
            assert(n as int * EIGHTH_TURN as int == (EIGHTH_TURN as int / 2) * (2 * n as int)) by (nonlinear_arith);
            vstd::arithmetic::div_mod::lemma_div_by_multiple(EIGHTH_TURN as int / 2, 2 * n as int);
            crate::fx::lemma_abs_mul_le(half as int, half as int, 268435456, 268435456);
            vstd::arithmetic::div_mod::lemma_div_is_ordered(
                half as int * half as int,
                72057594037927936,
                COSINE_DIV as int,
            );
            vstd::arithmetic::div_mod::lemma_div_pos_is_pos(half as int * half as int, COSINE_DIV as int);
        }
        let d = cos_q(half);
        let ghost roti = rotation_angle as int;
        let ghost s0i = s0 as int;
        let ghost sweepi = sweep as int;
        let ghost ni = n as int;
        let mut j: i64 = 0;
        while j < n
            invariant
                0 <= j <= ni,
                1 <= n <= 524297,
                n == ni,
                s0 == s0i,
                sweep == sweepi,
                sweepi != 0,
                rotation_angle as int == roti,
                self@ == base.push(PathCmd::LineTo(p0)) + spec_arc_quads(
                    origin, radius_x, radius_y, roti, s0i, sweepi, ni, j as int,
                ),
                !self.spec_done(),
                self.wf(),
                point_ok(origin),
                0 <= radius_x <= COORD_LIMIT,
                0 <= radius_y <= COORD_LIMIT,
                angle_ok(rotation_angle),
                spec_abs(s0i) <= ANGLE_LIMIT,
                spec_abs(sweepi) <= 2 * ANGLE_LIMIT + FULL_TURN,
                ni == spec_arc_segments(sweepi),
                d as int == spec_arc_denom(sweepi, ni),
                61440 <= d <= FX_ONE,
            decreases ni - j,
        {
            proof {
                crate::fx::lemma_tdiv_scaled_le(sweepi, 2 * j as int + 1, 2 * ni);
                crate::fx::lemma_tdiv_scaled_le(sweepi, j as int + 1, ni);
                crate::fx::lemma_abs_mul_le(
                    sweepi, 2 * j as int + 1, 2 * ANGLE_LIMIT as int + FULL_TURN as int, 1048595,
                );
                crate::fx::lemma_abs_mul_le(
                    sweepi, j as int + 1, 2 * ANGLE_LIMIT as int + FULL_TURN as int, 524298,
                );
            }
            let midq = tdiv128((sweep as i128) * ((2 * j + 1) as i128), (2 * n) as i128);
            let mid = s0 + (midq as i64);
            let thq = tdiv128((sweep as i128) * ((j + 1) as i128), n as i128);
            let th = s0 + (thq as i64);
            let ctrl = ellipse_ctrl(origin, radius_x, radius_y, rotation_angle, mid, d);
            let pt = ellipse_point(origin, radius_x, radius_y, rotation_angle, th);
            let ghost before = self@;
            self.quadratic_curve_to(ctrl, pt);
            j = j + 1;
            proof {
                assert(mid as int == spec_arc_mid(s0i, sweepi, j as int - 1, ni));
                assert(th as int == spec_arc_theta(s0i, sweepi, j as int, ni));
                assert(self@ =~= base.push(PathCmd::LineTo(p0)) + spec_arc_quads(
                    origin, radius_x, radius_y, roti, s0i, sweepi, ni, j as int,
                ));
            }
        }
        proof {
            assert(base + spec_arc_cmds(
                origin,
                radius_x,
                radius_y,
                roti,
                start_angle as int,
                end_angle as int,
                anticlockwise,
            ) =~= base.push(PathCmd::LineTo(p0)) + spec_arc_quads(
                origin, radius_x, radius_y, roti, s0i, sweepi, ni, ni,
            ));
        }
    }

    /// Appends a circular arc: an ellipse with equal radii and no
    /// rotation.
    pub fn arc(
        &mut self,
        origin: PointFx,
        radius: i64,
        start_angle: i64,
        end_angle: i64,
        anticlockwise: bool,
    )
        requires
            !old(self).spec_done(),
            old(self).wf(),
            point_ok(origin),
            0 <= radius <= COORD_LIMIT,
            angle_ok(start_angle),
            angle_ok(end_angle),
        ensures
            final(self)@ == old(self)@ + spec_arc_cmds(
                origin,
                radius,
                radius,
                0,
                start_angle as int,
                end_angle as int,
                anticlockwise,
            ),
            !final(self).spec_done(),
            final(self).wf(),
    {
        self.ellipse(origin, radius, radius, 0, start_angle, end_angle, anticlockwise);
    }

    /// The most recent explicit point, or `None` on an empty builder.
    pub fn get_current_point(&self) -> (r: Option<PointFx>)
        requires
            !self.spec_done(),
        ensures
            r == spec_last_point(self@),
    {
        let mut i: usize = self.cmds.len();
        proof {
            assert(self.cmds@.take(self.cmds@.len() as int) =~= self.cmds@);
        }
        loop
            invariant
                0 <= i <= self.cmds@.len(),
                spec_last_point(self@) == spec_last_point(self.cmds@.take(i as int)),
            decreases i,
        {
            if i == 0 {
                proof {
                    assert(self.cmds@.take(0) =~= Seq::<PathCmd>::empty());
                }
                return None;
            }
            i = i - 1;
            proof {
                assert(self.cmds@.take(i + 1).drop_last() =~= self.cmds@.take(i as int));
                assert(self.cmds@.take(i + 1).last() == self.cmds@[i as int]);
            }
            match self.cmds[i] {
                PathCmd::MoveTo(p) => { return Some(p); },
                PathCmd::LineTo(p) => { return Some(p); },
                PathCmd::QuadTo(_, p) => { return Some(p); },
                PathCmd::CubicTo(_, _, p) => { return Some(p); },
                PathCmd::Close => {},
            }
        }
    }

    /// Returns the sealed path, or `None` when the builder was already
    /// finished.
    pub fn finish(&mut self) -> (r: Option<Path>)
        ensures
            r is Some <==> !old(self).spec_done(),
            r is Some ==> r->Some_0@ == old(self)@,
            final(self).spec_done(),
            final(self)@ == old(self)@,
            old(self).wf() ==> final(self).wf(),
    {
        if self.done {
            None
        } else {
            self.done = true;
            Some(Path { cmds: self.cmds.clone() })
        }
    }
}

} // verus!
