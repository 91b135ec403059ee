//! Painter's-algorithm compositing of coloured rectangles onto a pixel canvas.
//!
//! * [`rect`]: the integer rectangle algebra (edges, intersection tests,
//!   intersections).
//! * [`color`]: RGB colours.
//! * [`scene`]: what filling and composing mean, as maps from coordinates to
//!   colours, with the laws that hold of them.
//! * [`raster`]: the pixel buffer of the `image` crate and what is taken on
//!   trust about it.
//! * [`screen`]: the canvas itself, which fills rectangles, composes a list
//!   of windows and hands out the finished grid.

pub mod color;
pub mod raster;
pub mod rect;
pub mod scene;
pub mod screen;
