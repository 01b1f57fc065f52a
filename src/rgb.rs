//! A three-channel color, interpolated channel by channel.
use crate::fraction::Fraction;
use crate::interpolate::Interpolate;
use vstd::prelude::*;

verus! {

/// An 8-bit red, green and blue color.
#[derive(Clone, Copy, Debug, PartialEq, Eq, Structural)]
pub struct Rgb {
    pub r: u8,
    pub g: u8,
    pub b: u8,
}

impl Interpolate for Rgb {
    open spec fn lerp_spec(a: Rgb, b: Rgb, x: Fraction) -> Rgb {
        Rgb {
            r: u8::lerp_spec(a.r, b.r, x),
            g: u8::lerp_spec(a.g, b.g, x),
            b: u8::lerp_spec(a.b, b.b, x),
        }
    }

    /// Each channel is interpolated on its own, at the same position.
    fn lerp(v: [Rgb; 2], x: Fraction) -> (r: Rgb)
        ensures
            r.r == u8::lerp_spec(v[0].r, v[1].r, x),
            r.g == u8::lerp_spec(v[0].g, v[1].g, x),
            r.b == u8::lerp_spec(v[0].b, v[1].b, x),
    {
        Rgb {
            r: u8::lerp([v[0].r, v[1].r], x),
            g: u8::lerp([v[0].g, v[1].g], x),
            b: u8::lerp([v[0].b, v[1].b], x),
        }
    }
}

} // verus!
