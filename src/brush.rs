//! Brush colour and size.
use vstd::prelude::*;

use crate::geometry::GridSize;

verus! {

/// An opaque-or-translucent colour, eight bits per channel.
#[derive(Clone, Copy, Debug, PartialEq, Eq, Structural)]
pub struct Color {
    pub r: u8,
    pub g: u8,
    pub b: u8,
    pub a: u8,
}

/// Grey level of the canvas background.
pub const BACKGROUND_LEVEL: u8 = 204;

/// The opaque colour with the given channels.
pub open spec fn opaque(r: u8, g: u8, b: u8) -> Color {
    Color { r, g, b, a: 255 }
}

impl Color {
    /// The opaque colour with the given channels.
    pub fn rgb(r: u8, g: u8, b: u8) -> (c: Color)
        ensures
            c == opaque(r, g, b),
    {
        Color { r, g, b, a: 255 }
    }

    /// Opaque black.
    pub fn black() -> (c: Color)
        ensures
            c == opaque(0, 0, 0),
    {
        Color::rgb(0, 0, 0)
    }

    /// The light grey that the canvas background is filled with.
    pub fn background() -> (c: Color)
        ensures
            c == opaque(BACKGROUND_LEVEL, BACKGROUND_LEVEL, BACKGROUND_LEVEL),
    {
        Color::rgb(BACKGROUND_LEVEL, BACKGROUND_LEVEL, BACKGROUND_LEVEL)
    }
}

/// The brush that cells are painted with. Its size, in cells, is carried
/// along but a stroke always paints exactly one cell.
#[derive(Clone, Copy, Debug, PartialEq, Eq, Structural)]
pub struct Brush {
    pub color: Color,
    pub size: GridSize,
}

} // verus!
