//! The color value carried by color and gradient frames.

use vstd::prelude::*;

verus! {

/// A color of three independent 8-bit channels. Two colors are equal exactly
/// when their channels are.
#[derive(Clone, Copy, Debug, PartialEq, Eq, Structural)]
pub struct Color {
    pub r: u8,
    pub g: u8,
    pub b: u8,
}

impl Color {
    /// The color with all channels off: the implicit second stop of a
    /// gradient that is given a single color.
    pub open spec fn black() -> Color {
        Color { r: 0, g: 0, b: 0 }
    }

    pub fn new(r: u8, g: u8, b: u8) -> (color: Color)
        ensures
            color == (Color { r, g, b }),
    {
        Color { r, g, b }
    }

    /// The red channel.
    pub fn r(&self) -> (r: u8)
        ensures
            r == self.r,
    {
        self.r
    }

    /// The green channel.
    pub fn g(&self) -> (g: u8)
        ensures
            g == self.g,
    {
        self.g
    }

    /// The blue channel.
    pub fn b(&self) -> (b: u8)
        ensures
            b == self.b,
    {
        self.b
    }
}

} // verus!
