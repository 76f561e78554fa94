//! Premultiplied RGBA color.
//!
//! A [`Color`] stores its channels already multiplied by alpha; the
//! premultiplication happens exactly once, in [`Color::from_rgba8`], and
//! every operation afterwards preserves the premultiplied invariant.

use vstd::prelude::*;

verus! {

/// A premultiplied RGBA color with 8-bit channels.
#[derive(Clone, Copy, Debug, PartialEq, Eq, Structural)]
pub struct Color {
    pub r: u8,
    pub g: u8,
    pub b: u8,
    pub a: u8,
}

/// Rounded premultiplication of one channel by an alpha value.
pub open spec fn spec_premul_channel(c: u8, a: u8) -> u8 {
    (((c as int) * (a as int) + 127) / 255) as u8
}

/// The premultiplied color built from straight 8-bit channels.
pub open spec fn spec_premul_color(r: u8, g: u8, b: u8, a: u8) -> Color {
    Color {
        r: spec_premul_channel(r, a),
        g: spec_premul_channel(g, a),
        b: spec_premul_channel(b, a),
        a,
    }
}

/// A premultiplied color never holds a channel above its alpha.
pub open spec fn color_wf(c: Color) -> bool {
    c.r <= c.a && c.g <= c.a && c.b <= c.a
}

/// A premultiplied channel never exceeds its alpha.
pub proof fn lemma_premul_channel_le(c: u8, a: u8)
    ensures
        spec_premul_channel(c, a) <= a,
{
    assert((c as int) * (a as int) <= 255 * (a as int)) by (nonlinear_arith)
        requires c <= 255, a >= 0;
    assert((255 * (a as int) + 127) / 255 == a as int) by (nonlinear_arith)
        requires 0 <= a <= 255;
    assert(((c as int) * (a as int) + 127) / 255 <= (255 * (a as int) + 127) / 255) by (nonlinear_arith)
        requires (c as int) * (a as int) <= 255 * (a as int);
}

/// Premultiplies one channel by an alpha value, rounding to nearest.
pub fn premul_channel(c: u8, a: u8) -> (r: u8)
    ensures
        r == spec_premul_channel(c, a),
        r <= a,
{
    proof {
        lemma_premul_channel_le(c, a);
        assert((c as int) * (a as int) <= 255 * 255) by (nonlinear_arith)
            requires c <= 255, a <= 255, 0 <= c, 0 <= a;
    }
    (((c as u32) * (a as u32) + 127) / 255) as u8
}

impl Color {
    /// Builds a premultiplied color from straight (non-premultiplied)
    /// 8-bit channels; this is the single place premultiplication happens.
    pub fn from_rgba8(r: u8, g: u8, b: u8, a: u8) -> (c: Color)
        ensures
            c == spec_premul_color(r, g, b, a),
            color_wf(c),
    {
        Color {
            r: premul_channel(r, a),
            g: premul_channel(g, a),
            b: premul_channel(b, a),
            a,
        }
    }

    /// The fully transparent color.
    pub fn transparent() -> (c: Color)
        ensures
            c == (Color { r: 0, g: 0, b: 0, a: 0 }),
            color_wf(c),
    {
        Color { r: 0, g: 0, b: 0, a: 0 }
    }

    /// Opaque black.
    pub fn black() -> (c: Color)
        ensures
            c == (Color { r: 0, g: 0, b: 0, a: 255 }),
            color_wf(c),
    {
        Color { r: 0, g: 0, b: 0, a: 255 }
    }
}

} // verus!
