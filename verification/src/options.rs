//! Stroke geometry options, draw options and the sampling filter.

use vstd::prelude::*;
use crate::comp::BlendMode;
use crate::fx::{FX_ONE, COORD_LIMIT};

verus! {

/// How segment ends are capped.
#[derive(Clone, Copy, Debug, PartialEq, Eq, Structural)]
pub enum LineCap {
    Butt,
    Round,
    Square,
}

/// How segments are joined.
#[derive(Clone, Copy, Debug, PartialEq, Eq, Structural)]
pub enum LineJoin {
    Round,
    Bevel,
    Miter,
}

/// Canvas-level line cap styles.
#[derive(Clone, Copy, Debug, PartialEq, Eq, Structural)]
pub enum LineCapStyle {
    Butt,
    Round,
    Square,
}

/// Canvas-level line join styles.
#[derive(Clone, Copy, Debug, PartialEq, Eq, Structural)]
pub enum LineJoinStyle {
    Round,
    Bevel,
    Miter,
}

/// Stroke geometry: width, miter limit, join and cap.
#[derive(Clone, Copy, Debug, PartialEq, Eq, Structural)]
pub struct StrokeOptions {
    pub width: i64,
    pub miter_limit: i64,
    pub line_join: LineJoin,
    pub line_cap: LineCap,
}

impl StrokeOptions {
    /// The backend's defaults: hairline-ish width of one unit, miter
    /// joins with limit four, butt caps.
    pub fn default_options() -> (r: StrokeOptions)
        ensures
            r == (StrokeOptions {
                width: FX_ONE,
                miter_limit: 262144,
                line_join: LineJoin::Miter,
                line_cap: LineCap::Butt,
            }),
    {
        StrokeOptions {
            width: FX_ONE,
            miter_limit: 262144,
            line_join: LineJoin::Miter,
            line_cap: LineCap::Butt,
        }
    }

    /// Sets the stroke width.
    pub fn set_line_width(&mut self, val: i64)
        ensures
            *final(self) == (StrokeOptions { width: val, ..*old(self) }),
    {
        self.width = val;
    }

    /// Sets the miter limit.
    pub fn set_miter_limit(&mut self, val: i64)
        ensures
            *final(self) == (StrokeOptions { miter_limit: val, ..*old(self) }),
    {
        self.miter_limit = val;
    }

    /// Sets the line join, translating the canvas-level style.
    pub fn set_line_join(&mut self, val: LineJoinStyle)
        ensures
            *final(self) == (StrokeOptions {
                line_join: spec_join_of_style(val),
                ..*old(self)
            }),
    {
        self.line_join = match val {
            LineJoinStyle::Round => LineJoin::Round,
            LineJoinStyle::Bevel => LineJoin::Bevel,
            LineJoinStyle::Miter => LineJoin::Miter,
        };
    }

    /// Sets the line cap, translating the canvas-level style.
    pub fn set_line_cap(&mut self, val: LineCapStyle)
        ensures
            *final(self) == (StrokeOptions {
                line_cap: spec_cap_of_style(val),
                ..*old(self)
            }),
    {
        self.line_cap = match val {
            LineCapStyle::Butt => LineCap::Butt,
            LineCapStyle::Round => LineCap::Round,
            LineCapStyle::Square => LineCap::Square,
        };
    }

    /// The stroke width stays within the coordinate bound.
    pub open spec fn wf(&self) -> bool {
        0 <= self.width <= COORD_LIMIT
    }
}

/// The join each canvas join style maps to.
pub open spec fn spec_join_of_style(v: LineJoinStyle) -> LineJoin {
    match v {
        LineJoinStyle::Round => LineJoin::Round,
        LineJoinStyle::Bevel => LineJoin::Bevel,
        LineJoinStyle::Miter => LineJoin::Miter,
    }
}

/// The cap each canvas cap style maps to.
pub open spec fn spec_cap_of_style(v: LineCapStyle) -> LineCap {
    match v {
        LineCapStyle::Butt => LineCap::Butt,
        LineCapStyle::Round => LineCap::Round,
        LineCapStyle::Square => LineCap::Square,
    }
}

/// The cap a synthetic two-point line is stroked with: round when the
/// configured join is round, else butt, so lone lines look consistent
/// with round joins.
pub open spec fn spec_line_cap_for_join(join: LineJoin) -> LineCap {
    match join {
        LineJoin::Round => LineCap::Round,
        LineJoin::Bevel => LineCap::Butt,
        LineJoin::Miter => LineCap::Butt,
    }
}

/// Computes the cap a synthetic two-point line is stroked with.
pub fn line_cap_for_join(join: LineJoin) -> (r: LineCap)
    ensures
        r == spec_line_cap_for_join(join),
{
    match join {
        LineJoin::Round => LineCap::Round,
        LineJoin::Bevel => LineCap::Butt,
        LineJoin::Miter => LineCap::Butt,
    }
}

/// Pattern sampling filters.
#[derive(Clone, Copy, Debug, PartialEq, Eq, Structural)]
pub enum Filter {
    Bilinear,
    Nearest,
}

/// Per-draw options: the blend mode and a shader alpha factor.
#[derive(Clone, Copy, Debug, PartialEq, Eq, Structural)]
pub struct DrawOptions {
    pub blend_mode: BlendMode,
    pub alpha: i64,
}

impl DrawOptions {
    /// The defaults: source-over at full alpha.
    pub fn default_options() -> (r: DrawOptions)
        ensures
            r == (DrawOptions { blend_mode: BlendMode::SourceOver, alpha: FX_ONE }),
    {
        DrawOptions { blend_mode: BlendMode::SourceOver, alpha: FX_ONE }
    }

    /// Sets the shader alpha factor.
    pub fn set_alpha(&mut self, val: i64)
        ensures
            *final(self) == (DrawOptions { alpha: val, ..*old(self) }),
    {
        self.alpha = val;
    }

    /// Sets the blend mode.
    pub fn set_blend_mode(&mut self, val: BlendMode)
        ensures
            *final(self) == (DrawOptions { blend_mode: val, ..*old(self) }),
    {
        self.blend_mode = val;
    }
}

} // verus!
