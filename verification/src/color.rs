//! Opaque RGB colours.

use vstd::prelude::*;

verus! {

/// A colour of three 8-bit channels. There is no alpha channel.
#[derive(Debug, Clone, Copy, PartialEq, Eq, Structural)]
pub struct Color {
    pub r: u8,
    pub g: u8,
    pub b: u8,
}

impl Color {
    /// The colour every canvas is cleared to before windows are painted.
    pub open spec fn spec_background() -> Color {
        Color { r: 0x33, g: 0x33, b: 0x33 }
    }

    /// The colour of a pixel that has never been painted: all channels zero.
    pub open spec fn spec_blank() -> Color {
        Color { r: 0, g: 0, b: 0 }
    }

    /// Builds a colour from its channels.
    pub fn new(r: u8, g: u8, b: u8) -> (c: Color)
        ensures
            c == (Color { r, g, b }),
    {
        Color { r, g, b }
    }

    /// The background colour, `(0x33, 0x33, 0x33)`.
    pub fn background() -> (c: Color)
        ensures
            c == Color::spec_background(),
    {
        Color { r: 0x33, g: 0x33, b: 0x33 }
    }
}

} // verus!
