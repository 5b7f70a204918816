//! RGBA colors with fixed-point channels.

use vstd::prelude::*;
use crate::fixed::FX_ONE;

verus! {

/// An RGBA color.  Each channel is a fixed-point value, nominally in
/// `[0, FX_ONE]`; the range is not enforced, the caller is responsible
/// for supplying sensible channel values.
#[derive(Clone, Copy, Debug, PartialEq, Eq, Structural)]
pub struct Color {
    pub r: i64,
    pub g: i64,
    pub b: i64,
    pub a: i64,
}

/// The color that `Color::rgb` builds: the given channels, opaque.
pub open spec fn rgb_spec(r: i64, g: i64, b: i64) -> Color {
    Color { r, g, b, a: FX_ONE }
}

/// The flat `[r, g, b, a]` channel sequence of a color.
pub open spec fn to_array_spec(c: Color) -> Seq<i64> {
    seq![c.r, c.g, c.b, c.a]
}

impl Color {
    /// An opaque color from its three channels; the alpha channel is one.
    pub fn rgb(r: i64, g: i64, b: i64) -> (c: Color)
        ensures
            c == rgb_spec(r, g, b),
    {
        Color { r, g, b, a: FX_ONE }
    }

    /// The channels as a flat array, in `[r, g, b, a]` order.
    pub fn to_array(self) -> (arr: [i64; 4])
        ensures
            arr@ == to_array_spec(self),
    {
        let arr = [self.r, self.g, self.b, self.a];
        proof {
            assert(arr@ =~= seq![self.r, self.g, self.b, self.a]);
        }
        arr
    }

    /// Opaque red.
    pub fn red() -> (c: Color)
        ensures
            c == (Color { r: FX_ONE, g: 0, b: 0, a: FX_ONE }),
    {
        Color { r: FX_ONE, g: 0, b: 0, a: FX_ONE }
    }

    /// Opaque green.
    pub fn green() -> (c: Color)
        ensures
            c == (Color { r: 0, g: FX_ONE, b: 0, a: FX_ONE }),
    {
        Color { r: 0, g: FX_ONE, b: 0, a: FX_ONE }
    }

    /// Opaque blue.
    pub fn blue() -> (c: Color)
        ensures
            c == (Color { r: 0, g: 0, b: FX_ONE, a: FX_ONE }),
    {
        Color { r: 0, g: 0, b: FX_ONE, a: FX_ONE }
    }

    /// Opaque white.
    pub fn white() -> (c: Color)
        ensures
            c == (Color { r: FX_ONE, g: FX_ONE, b: FX_ONE, a: FX_ONE }),
    {
        Color { r: FX_ONE, g: FX_ONE, b: FX_ONE, a: FX_ONE }
    }

    /// Opaque black.
    pub fn black() -> (c: Color)
        ensures
            c == (Color { r: 0, g: 0, b: 0, a: FX_ONE }),
    {
        Color { r: 0, g: 0, b: 0, a: FX_ONE }
    }

    /// Fully transparent black.
    pub fn transparent() -> (c: Color)
        ensures
            c == (Color { r: 0, g: 0, b: 0, a: 0 }),
    {
        Color { r: 0, g: 0, b: 0, a: 0 }
    }
}

/// A color built by `rgb` reads back through `to_array` as
/// `[r, g, b, FX_ONE]`: the three channels round-trip unchanged and the
/// alpha channel is one.
pub proof fn lemma_rgb_to_array_round_trip(r: i64, g: i64, b: i64)
    ensures
        to_array_spec(rgb_spec(r, g, b)) == seq![r, g, b, FX_ONE],
{
    assert(to_array_spec(rgb_spec(r, g, b)) =~= seq![r, g, b, FX_ONE]);
}

} // verus!
