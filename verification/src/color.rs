//! RGBA colors with 8-bit channels.

use vstd::prelude::*;

verus! {

/// An RGBA color. Each channel ranges over the full `u8` scale, where
/// 255 is full intensity (or, for `a`, full opacity).
#[derive(Debug, Clone, Copy, PartialEq, Eq)]
pub struct Color {
    pub r: u8,
    pub g: u8,
    pub b: u8,
    pub a: u8,
}

impl Color {
    /// Builds an opaque color from the three channel values.
    pub fn u_rgb(r: u8, g: u8, b: u8) -> (c: Color)
        ensures
            c == (Color { r, g, b, a: 255 }),
    {
        Color { r, g, b, a: 255 }
    }

    /// Builds a color from the three channel values and an alpha value.
    pub fn u_rgba(r: u8, g: u8, b: u8, a: u8) -> (c: Color)
        ensures
            c == (Color { r, g, b, a }),
    {
        Color { r, g, b, a }
    }

    /// The fully transparent black that cleared configurations carry.
    pub open spec fn spec_default() -> Color {
        Color { r: 0, g: 0, b: 0, a: 0 }
    }
}

impl Default for Color {
    /// Transparent black, matching a zeroed engine color.
    fn default() -> (c: Color)
        ensures
            c == Color::spec_default(),
    {
        Color { r: 0, g: 0, b: 0, a: 0 }
    }
}

} // verus!
