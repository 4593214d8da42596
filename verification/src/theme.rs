//! Plain-value theme data handed to the presentation layer: margins and
//! unmultiplied RGBA colors.  The core never interprets these; they only
//! travel with the configuration.

use vstd::prelude::*;

verus! {

/// Margins of a panel, in logical pixels.
#[derive(Debug, Clone, Copy, PartialEq, Eq, Structural)]
pub struct Margin {
    pub left: i8,
    pub right: i8,
    pub top: i8,
    pub bottom: i8,
}

impl Margin {
    /// A margin of `x` on the left and `y` on the other three sides.
    pub fn symmetric(x: i8, y: i8) -> (r: Margin)
        ensures
            r == (Margin { left: x, right: y, top: y, bottom: y }),
    {
        Margin { left: x, right: y, top: y, bottom: y }
    }

    /// The same margin `v` on all four sides.
    pub fn splat(v: i8) -> (r: Margin)
        ensures
            r == (Margin { left: v, right: v, top: v, bottom: v }),
    {
        Margin { left: v, right: v, top: v, bottom: v }
    }

    /// Total horizontal margin.
    pub fn x(self) -> (r: i8)
        requires
            i8::MIN <= self.left + self.right <= i8::MAX,
        ensures
            r == self.left + self.right,
    {
        self.left + self.right
    }

    /// Total vertical margin.
    pub fn y(self) -> (r: i8)
        requires
            i8::MIN <= self.top + self.bottom <= i8::MAX,
        ensures
            r == self.top + self.bottom,
    {
        self.top + self.bottom
    }
}

/// An RGBA color with unmultiplied alpha, in any of the three shapes the
/// configuration file may use for it.
#[derive(Debug, Clone, Copy, PartialEq, Eq)]
pub enum RgbaUnmultiplied {
    Struct { r: u8, g: u8, b: u8, a: u8 },
    Tuple(u8, u8, u8, u8),
    List([u8; 4]),
}

impl RgbaUnmultiplied {
    /// The four channels in `[r, g, b, a]` order, whichever shape holds them.
    pub fn rgba(self) -> (res: [u8; 4])
        ensures
            res@ == self.rgba_spec(),
    {
        match self {
            RgbaUnmultiplied::Struct { r, g, b, a } => [r, g, b, a],
            RgbaUnmultiplied::Tuple(r, g, b, a) => [r, g, b, a],
            RgbaUnmultiplied::List(c) => c,
        }
    }

    /// The channels of this color as a sequence `[r, g, b, a]`.
    pub open spec fn rgba_spec(self) -> Seq<u8> {
        match self {
            RgbaUnmultiplied::Struct { r, g, b, a } => seq![r, g, b, a],
            RgbaUnmultiplied::Tuple(r, g, b, a) => seq![r, g, b, a],
            RgbaUnmultiplied::List(c) => c@,
        }
    }
}

} // verus!
