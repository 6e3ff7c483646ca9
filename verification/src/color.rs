//! Colors for annotation tools and drawing primitives.
//!
//! Components are stored in hundredths of full intensity (0 ..= 100), which
//! represents the editor's whole palette exactly.

use vstd::prelude::*;

verus! {

/// An RGBA color; each component in hundredths of full intensity.
#[derive(Debug, Clone, Copy, PartialEq, Eq, Structural)]
pub struct Rgba {
    pub r: u8,
    pub g: u8,
    pub b: u8,
    pub a: u8,
}

impl Rgba {
    pub fn new(r: u8, g: u8, b: u8, a: u8) -> (c: Rgba)
        ensures
            c == (Rgba { r, g, b, a }),
    {
        Rgba { r, g, b, a }
    }
}

/// The red/blue exchange demanded by the rendering backend, which consumes
/// colors in (B, G, R, A) order.
pub open spec fn spec_adjust_color(c: Rgba) -> Rgba {
    Rgba { r: c.b, g: c.g, b: c.r, a: c.a }
}

/// Swaps the red and blue components of `color`; green and alpha are kept.
pub fn adjust_color(color: Rgba) -> (r: Rgba)
    ensures
        r == spec_adjust_color(color),
{
    Rgba { r: color.b, g: color.g, b: color.r, a: color.a }
}

/// The red/blue exchange is an involution: applying it twice returns the
/// original color exactly.
pub proof fn lemma_adjust_color_involution(c: Rgba)
    ensures
        spec_adjust_color(spec_adjust_color(c)) == c,
{
}

/// The colors offered by the tool color picker.
#[derive(Debug, Clone, Copy, PartialEq, Eq, Structural)]
pub enum ToolColor {
    White,
    Black,
    Red,
    Orange,
    Yellow,
    Green,
    Blue,
    Violet,
}

impl ToolColor {
    /// The palette entry of this picker choice, fully opaque.
    pub open spec fn spec_color(self) -> Rgba {
        match self {
            ToolColor::White => Rgba { r: 100, g: 100, b: 100, a: 100 },
            ToolColor::Black => Rgba { r: 0, g: 0, b: 0, a: 100 },
            ToolColor::Red => Rgba { r: 81, g: 18, b: 18, a: 100 },
            ToolColor::Orange => Rgba { r: 100, g: 41, b: 0, a: 100 },
            ToolColor::Yellow => Rgba { r: 99, g: 73, b: 0, a: 100 },
            ToolColor::Green => Rgba { r: 0, g: 82, b: 52, a: 100 },
            ToolColor::Blue => Rgba { r: 2, g: 58, b: 89, a: 100 },
            ToolColor::Violet => Rgba { r: 61, g: 32, b: 88, a: 100 },
        }
    }

    /// Converts a picker choice into its palette color.
    pub fn color(self) -> (c: Rgba)
        ensures
            c == self.spec_color(),
    {
        match self {
            ToolColor::White => Rgba { r: 100, g: 100, b: 100, a: 100 },
            ToolColor::Black => Rgba { r: 0, g: 0, b: 0, a: 100 },
            ToolColor::Red => Rgba { r: 81, g: 18, b: 18, a: 100 },
            ToolColor::Orange => Rgba { r: 100, g: 41, b: 0, a: 100 },
            ToolColor::Yellow => Rgba { r: 99, g: 73, b: 0, a: 100 },
            ToolColor::Green => Rgba { r: 0, g: 82, b: 52, a: 100 },
            ToolColor::Blue => Rgba { r: 2, g: 58, b: 89, a: 100 },
            ToolColor::Violet => Rgba { r: 61, g: 32, b: 88, a: 100 },
        }
    }
}

} // verus!
