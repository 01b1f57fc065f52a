//! The interpolation capability and its implementations for the integer types.
//!
//! Integer samples are interpolated exactly: the value `a + x (b - a)` is
//! computed as a fraction, its fractional part is discarded (rounding toward
//! zero), and a result beyond the type's range saturates at its bounds.
//! Bilinear interpolation of integers evaluates the closed formula
//! `v00 (1-x)(1-y) + v10 x (1-y) + v01 (1-x) y + v11 x y` exactly and
//! truncates once, at the end, rather than truncating the intermediate rows.
use crate::fraction::{Fraction, bilerp_exact, bilerp_wide, clamp, lerp_exact, lerp_wide};
use vstd::prelude::*;

verus! {

/// A value type that can be linearly and bilinearly interpolated.
pub trait Interpolate: Copy + Sized {
    /// The value between `a` (at position 0) and `b` (at position 1) at position `x`.
    spec fn lerp_spec(a: Self, b: Self, x: Fraction) -> Self;

    /// Linear interpolation between the two samples `v[0]` and `v[1]`.
    fn lerp(v: [Self; 2], x: Fraction) -> (r: Self)
        requires
            x.wf(),
        ensures
            r == Self::lerp_spec(v[0], v[1], x),
            x.is_zero() ==> r == v[0],
            x.is_one() ==> r == v[1],
    ;

    /// Bilinear interpolation of the corner samples `v[i][j]`, where `i` selects
    /// the position along `x` and `j` the position along `y`.
    ///
    /// The provided implementation interpolates each row `v[i]` along `y`, then
    /// interpolates the two results along `x`.
    fn bilerp(v: [[Self; 2]; 2], x: Fraction, y: Fraction) -> (r: Self)
        requires
            x.wf(),
            y.wf(),
        ensures
            x.is_zero() && y.is_zero() ==> r == v[0][0],
            x.is_zero() && y.is_one() ==> r == v[0][1],
            x.is_one() && y.is_zero() ==> r == v[1][0],
            x.is_one() && y.is_one() ==> r == v[1][1],
        default_ensures
            r == Self::lerp_spec(
                Self::lerp_spec(v[0][0], v[0][1], y),
                Self::lerp_spec(v[1][0], v[1][1], y),
                x,
            ),
    {
        let v0 = Self::lerp([v[0][0], v[0][1]], y);
        let v1 = Self::lerp([v[1][0], v[1][1]], y);
        Self::lerp([v0, v1], x)
    }
}

impl Interpolate for u8 {
    open spec fn lerp_spec(a: u8, b: u8, x: Fraction) -> u8 {
        clamp(lerp_exact(a as int, b as int, x), 0, 0xff) as u8
    }

    fn lerp(v: [u8; 2], x: Fraction) -> (r: u8) {
        lerp_wide(v[0] as i128, v[1] as i128, x, 0, 0xff) as u8
    }

    fn bilerp(v: [[u8; 2]; 2], x: Fraction, y: Fraction) -> (r: u8)
        ensures
            r as int == clamp(
                bilerp_exact(v[0][0] as int, v[0][1] as int, v[1][0] as int, v[1][1] as int, x, y),
                0,
                0xff,
            ),
    {
        bilerp_wide(v[0][0] as i128, v[0][1] as i128, v[1][0] as i128, v[1][1] as i128, x, y, 0, 0xff) as u8
    }
}

impl Interpolate for u16 {
    open spec fn lerp_spec(a: u16, b: u16, x: Fraction) -> u16 {
        clamp(lerp_exact(a as int, b as int, x), 0, 0xffff) as u16
    }

    fn lerp(v: [u16; 2], x: Fraction) -> (r: u16) {
        lerp_wide(v[0] as i128, v[1] as i128, x, 0, 0xffff) as u16
    }

    fn bilerp(v: [[u16; 2]; 2], x: Fraction, y: Fraction) -> (r: u16)
        ensures
            r as int == clamp(
                bilerp_exact(v[0][0] as int, v[0][1] as int, v[1][0] as int, v[1][1] as int, x, y),
                0,
                0xffff,
            ),
    {
        bilerp_wide(v[0][0] as i128, v[0][1] as i128, v[1][0] as i128, v[1][1] as i128, x, y, 0, 0xffff) as u16
    }
}

impl Interpolate for u32 {
    open spec fn lerp_spec(a: u32, b: u32, x: Fraction) -> u32 {
        clamp(lerp_exact(a as int, b as int, x), 0, 0xffff_ffff) as u32
    }

    fn lerp(v: [u32; 2], x: Fraction) -> (r: u32) {
        lerp_wide(v[0] as i128, v[1] as i128, x, 0, 0xffff_ffff) as u32
    }

    fn bilerp(v: [[u32; 2]; 2], x: Fraction, y: Fraction) -> (r: u32)
        ensures
            r as int == clamp(
                bilerp_exact(v[0][0] as int, v[0][1] as int, v[1][0] as int, v[1][1] as int, x, y),
                0,
                0xffff_ffff,
            ),
    {
        bilerp_wide(v[0][0] as i128, v[0][1] as i128, v[1][0] as i128, v[1][1] as i128, x, y, 0, 0xffff_ffff) as u32
    }
}

impl Interpolate for u64 {
    open spec fn lerp_spec(a: u64, b: u64, x: Fraction) -> u64 {
        clamp(lerp_exact(a as int, b as int, x), 0, 0xffff_ffff_ffff_ffff) as u64
    }

    fn lerp(v: [u64; 2], x: Fraction) -> (r: u64) {
        lerp_wide(v[0] as i128, v[1] as i128, x, 0, 0xffff_ffff_ffff_ffff) as u64
    }

    fn bilerp(v: [[u64; 2]; 2], x: Fraction, y: Fraction) -> (r: u64)
        ensures
            r as int == clamp(
                bilerp_exact(v[0][0] as int, v[0][1] as int, v[1][0] as int, v[1][1] as int, x, y),
                0,
                0xffff_ffff_ffff_ffff,
            ),
    {
        bilerp_wide(v[0][0] as i128, v[0][1] as i128, v[1][0] as i128, v[1][1] as i128, x, y, 0, 0xffff_ffff_ffff_ffff) as u64
    }
}

impl Interpolate for i8 {
    open spec fn lerp_spec(a: i8, b: i8, x: Fraction) -> i8 {
        clamp(lerp_exact(a as int, b as int, x), -0x80, 0x7f) as i8
    }

    fn lerp(v: [i8; 2], x: Fraction) -> (r: i8) {
        lerp_wide(v[0] as i128, v[1] as i128, x, -0x80, 0x7f) as i8
    }

    fn bilerp(v: [[i8; 2]; 2], x: Fraction, y: Fraction) -> (r: i8)
        ensures
            r as int == clamp(
                bilerp_exact(v[0][0] as int, v[0][1] as int, v[1][0] as int, v[1][1] as int, x, y),
                -0x80,
                0x7f,
            ),
    {
        bilerp_wide(v[0][0] as i128, v[0][1] as i128, v[1][0] as i128, v[1][1] as i128, x, y, -0x80, 0x7f) as i8
    }
}

impl Interpolate for i16 {
    open spec fn lerp_spec(a: i16, b: i16, x: Fraction) -> i16 {
        clamp(lerp_exact(a as int, b as int, x), -0x8000, 0x7fff) as i16
    }

    fn lerp(v: [i16; 2], x: Fraction) -> (r: i16) {
        lerp_wide(v[0] as i128, v[1] as i128, x, -0x8000, 0x7fff) as i16
    }

    fn bilerp(v: [[i16; 2]; 2], x: Fraction, y: Fraction) -> (r: i16)
        ensures
            r as int == clamp(
                bilerp_exact(v[0][0] as int, v[0][1] as int, v[1][0] as int, v[1][1] as int, x, y),
                -0x8000,
                0x7fff,
            ),
    {
        bilerp_wide(v[0][0] as i128, v[0][1] as i128, v[1][0] as i128, v[1][1] as i128, x, y, -0x8000, 0x7fff) as i16
    }
}

impl Interpolate for i32 {
    open spec fn lerp_spec(a: i32, b: i32, x: Fraction) -> i32 {
        clamp(lerp_exact(a as int, b as int, x), -0x8000_0000, 0x7fff_ffff) as i32
    }

    fn lerp(v: [i32; 2], x: Fraction) -> (r: i32) {
        lerp_wide(v[0] as i128, v[1] as i128, x, -0x8000_0000, 0x7fff_ffff) as i32
    }

    fn bilerp(v: [[i32; 2]; 2], x: Fraction, y: Fraction) -> (r: i32)
        ensures
            r as int == clamp(
                bilerp_exact(v[0][0] as int, v[0][1] as int, v[1][0] as int, v[1][1] as int, x, y),
                -0x8000_0000,
                0x7fff_ffff,
            ),
    {
        bilerp_wide(v[0][0] as i128, v[0][1] as i128, v[1][0] as i128, v[1][1] as i128, x, y, -0x8000_0000, 0x7fff_ffff) as i32
    }
}

impl Interpolate for i64 {
    open spec fn lerp_spec(a: i64, b: i64, x: Fraction) -> i64 {
        clamp(lerp_exact(a as int, b as int, x), -0x8000_0000_0000_0000, 0x7fff_ffff_ffff_ffff) as i64
    }

    fn lerp(v: [i64; 2], x: Fraction) -> (r: i64) {
        lerp_wide(v[0] as i128, v[1] as i128, x, -0x8000_0000_0000_0000, 0x7fff_ffff_ffff_ffff) as i64
    }

    fn bilerp(v: [[i64; 2]; 2], x: Fraction, y: Fraction) -> (r: i64)
        ensures
            r as int == clamp(
                bilerp_exact(v[0][0] as int, v[0][1] as int, v[1][0] as int, v[1][1] as int, x, y),
                -0x8000_0000_0000_0000,
                0x7fff_ffff_ffff_ffff,
            ),
    {
        bilerp_wide(v[0][0] as i128, v[0][1] as i128, v[1][0] as i128, v[1][1] as i128, x, y, -0x8000_0000_0000_0000, 0x7fff_ffff_ffff_ffff) as i64
    }
}

} // verus!
