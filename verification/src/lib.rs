//! Shapes of glyphs.
//!
//! A font draws a glyph as an outline: closed paths made of lines and
//! Bezier curves. This library turns such an outline into a [`Shape`], the
//! form in which a renderer or a distance-field generator takes it: contours
//! of edges, each edge with its own start point and a colour.
//!
//! - [`binary`]: coordinates as bit patterns, and their exact widening.
//! - [`outline`]: the outline as the font describes it.
//! - [`shape`]: the shape.
//! - [`walker`]: from the one to the other, and what holds of the result.
//! - [`interop`]: glyphs of the `font` crate, and the shape for what a font
//!   answered.

pub mod binary;
pub mod interop;
pub mod outline;
pub mod shape;
pub mod walker;

pub use interop::drawn_shape;
pub use shape::{EdgeColor, EdgeHolder, Point2, Shape, ShapeContour};
