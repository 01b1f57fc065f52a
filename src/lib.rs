//! Linear and bilinear interpolation over integer and composite value types,
//! with positions given as exact fractions.

pub mod array;
pub mod fraction;
pub mod interpolate;
pub mod rgb;
