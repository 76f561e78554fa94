//! Verified core of a 2D vector-graphics canvas backend.
//!
//! The crate models every quantity with fixed-point integers so that the
//! whole pipeline — geometry construction, paint resolution, clipping and
//! compositing into a pixel buffer — can be stated and proved exactly.
//! The floating-point rasterization boundary (an outside renderer) sits in
//! the application layer around this crate.

pub mod fx;
pub mod color;
pub mod geom;
pub mod transform;
pub mod comp;
pub mod angle;
pub mod path;
pub mod paint;
pub mod options;
pub mod raster;
pub mod target;
pub mod state;
pub mod font;
pub mod laws;
