//! Composite and blend modes, and the total mapping from the abstract
//! canvas-level enum to the backend blend mode.

use vstd::prelude::*;

verus! {

/// Porter-Duff composite styles of the canvas API.
#[derive(Clone, Copy, Debug, PartialEq, Eq, Structural)]
pub enum CompositionStyle {
    SrcIn,
    SrcOut,
    SrcOver,
    SrcAtop,
    DestIn,
    DestOut,
    DestOver,
    DestAtop,
    Copy,
    Lighter,
    Xor,
    Clear,
}

/// Separable and non-separable blend styles of the canvas API.
#[derive(Clone, Copy, Debug, PartialEq, Eq, Structural)]
pub enum BlendingStyle {
    Multiply,
    Screen,
    Overlay,
    Darken,
    Lighten,
    ColorDodge,
    ColorBurn,
    HardLight,
    SoftLight,
    Difference,
    Exclusion,
    Hue,
    Saturation,
    Color,
    Luminosity,
}

/// Either a composite style or a blend style, as the canvas API hands
/// it down.
#[derive(Clone, Copy, Debug, PartialEq, Eq, Structural)]
pub enum CompositionOrBlending {
    Composition(CompositionStyle),
    Blending(BlendingStyle),
}

/// The backend's blend modes.
#[derive(Clone, Copy, Debug, PartialEq, Eq, Structural)]
pub enum BlendMode {
    Clear,
    Source,
    SourceOver,
    DestinationOver,
    SourceIn,
    DestinationIn,
    SourceOut,
    DestinationOut,
    SourceAtop,
    DestinationAtop,
    Xor,
    Plus,
    Multiply,
    Screen,
    Overlay,
    Darken,
    Lighten,
    ColorDodge,
    ColorBurn,
    HardLight,
    SoftLight,
    Difference,
    Exclusion,
    Hue,
    Saturation,
    Color,
    Luminosity,
}

/// The backend blend mode that each abstract composite-or-blend value
/// maps to; the match is exhaustive, so the mapping is total.
pub open spec fn spec_blend_mode_for(op: CompositionOrBlending) -> BlendMode {
    match op {
        CompositionOrBlending::Composition(c) => match c {
            CompositionStyle::SrcIn => BlendMode::SourceIn,
            CompositionStyle::SrcOut => BlendMode::SourceOut,
            CompositionStyle::SrcOver => BlendMode::SourceOver,
            CompositionStyle::SrcAtop => BlendMode::SourceAtop,
            CompositionStyle::DestIn => BlendMode::DestinationIn,
            CompositionStyle::DestOut => BlendMode::DestinationOut,
            CompositionStyle::DestOver => BlendMode::DestinationOver,
            CompositionStyle::DestAtop => BlendMode::DestinationAtop,
            CompositionStyle::Copy => BlendMode::Source,
            CompositionStyle::Lighter => BlendMode::Plus,
            CompositionStyle::Xor => BlendMode::Xor,
            CompositionStyle::Clear => BlendMode::Clear,
        },
        CompositionOrBlending::Blending(b) => match b {
            BlendingStyle::Multiply => BlendMode::Multiply,
            BlendingStyle::Screen => BlendMode::Screen,
            BlendingStyle::Overlay => BlendMode::Overlay,
            BlendingStyle::Darken => BlendMode::Darken,
            BlendingStyle::Lighten => BlendMode::Lighten,
            BlendingStyle::ColorDodge => BlendMode::ColorDodge,
            BlendingStyle::ColorBurn => BlendMode::ColorBurn,
            BlendingStyle::HardLight => BlendMode::HardLight,
            BlendingStyle::SoftLight => BlendMode::SoftLight,
            BlendingStyle::Difference => BlendMode::Difference,
            BlendingStyle::Exclusion => BlendMode::Exclusion,
            BlendingStyle::Hue => BlendMode::Hue,
            BlendingStyle::Saturation => BlendMode::Saturation,
            BlendingStyle::Color => BlendMode::Color,
            BlendingStyle::Luminosity => BlendMode::Luminosity,
        },
    }
}

/// Maps an abstract composite-or-blend value to the backend blend mode.
pub fn blend_mode_for(op: CompositionOrBlending) -> (r: BlendMode)
    ensures
        r == spec_blend_mode_for(op),
{
    match op {
        CompositionOrBlending::Composition(c) => match c {
            CompositionStyle::SrcIn => BlendMode::SourceIn,
            CompositionStyle::SrcOut => BlendMode::SourceOut,
            CompositionStyle::SrcOver => BlendMode::SourceOver,
            CompositionStyle::SrcAtop => BlendMode::SourceAtop,
            CompositionStyle::DestIn => BlendMode::DestinationIn,
            CompositionStyle::DestOut => BlendMode::DestinationOut,
            CompositionStyle::DestOver => BlendMode::DestinationOver,
            CompositionStyle::DestAtop => BlendMode::DestinationAtop,
            CompositionStyle::Copy => BlendMode::Source,
            CompositionStyle::Lighter => BlendMode::Plus,
            CompositionStyle::Xor => BlendMode::Xor,
            CompositionStyle::Clear => BlendMode::Clear,
        },
        CompositionOrBlending::Blending(b) => match b {
            BlendingStyle::Multiply => BlendMode::Multiply,
            BlendingStyle::Screen => BlendMode::Screen,
            BlendingStyle::Overlay => BlendMode::Overlay,
            BlendingStyle::Darken => BlendMode::Darken,
            BlendingStyle::Lighten => BlendMode::Lighten,
            BlendingStyle::ColorDodge => BlendMode::ColorDodge,
            BlendingStyle::ColorBurn => BlendMode::ColorBurn,
            BlendingStyle::HardLight => BlendMode::HardLight,
            BlendingStyle::SoftLight => BlendMode::SoftLight,
            BlendingStyle::Difference => BlendMode::Difference,
            BlendingStyle::Exclusion => BlendMode::Exclusion,
            BlendingStyle::Hue => BlendMode::Hue,
            BlendingStyle::Saturation => BlendMode::Saturation,
            BlendingStyle::Color => BlendMode::Color,
            BlendingStyle::Luminosity => BlendMode::Luminosity,
        },
    }
}

} // verus!
