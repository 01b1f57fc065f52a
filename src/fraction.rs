//! Fractional positions and the exact integer arithmetic behind interpolation.
use vstd::prelude::*;

verus! {

/// A position along an axis, `num / den`. Position 0 is the first sample and
/// position 1 the second; positions outside `[0, 1]` extrapolate.
#[derive(Clone, Copy, Debug, PartialEq, Eq, Structural)]
pub struct Fraction {
    pub num: i16,
    pub den: u16,
}

impl Fraction {
    /// A fraction is usable as a position when its denominator is positive.
    pub open spec fn wf(self) -> bool {
        self.den > 0
    }

    /// The position lies on the first sample.
    pub open spec fn is_zero(self) -> bool {
        self.num == 0
    }

    /// The position lies on the second sample.
    pub open spec fn is_one(self) -> bool {
        self.num as int == self.den as int
    }

    pub fn new(num: i16, den: u16) -> (r: Fraction)
        requires
            den > 0,
        ensures
            r.num == num,
            r.den == den,
            r.wf(),
    {
        Fraction { num, den }
    }
}

/// Division that discards the fractional part, rounding toward zero.
pub open spec fn trunc_div(n: int, d: int) -> int
    recommends
        d > 0,
{
    if n >= 0 {
        n / d
    } else {
        -((-n) / d)
    }
}

/// `v` limited to the range `[lo, hi]`.
pub open spec fn clamp(v: int, lo: int, hi: int) -> int {
    if v < lo {
        lo
    } else if v > hi {
        hi
    } else {
        v
    }
}

/// `(a + x * (b - a)) * den`, the linear interpolation scaled by the denominator.
pub open spec fn lerp_scaled(a: int, b: int, x: Fraction) -> int {
    a * x.den + x.num * (b - a)
}

/// The exact linear interpolation between `a` and `b` at `x`, truncated toward zero.
pub open spec fn lerp_exact(a: int, b: int, x: Fraction) -> int {
    trunc_div(lerp_scaled(a, b, x), x.den as int)
}

/// The closed bilinear formula scaled by both denominators:
/// `v00 (1-x)(1-y) + v10 x (1-y) + v01 (1-x) y + v11 x y`, times `dx * dy`.
pub open spec fn bilerp_scaled(v00: int, v01: int, v10: int, v11: int, x: Fraction, y: Fraction) -> int {
    let (xn, dx, yn, dy) = (x.num as int, x.den as int, y.num as int, y.den as int);
    v00 * (dx - xn) * (dy - yn) + v10 * xn * (dy - yn) + v01 * (dx - xn) * yn + v11 * xn * yn
}

/// The exact bilinear interpolation of the four corners at `(x, y)`, truncated toward zero.
pub open spec fn bilerp_exact(v00: int, v01: int, v10: int, v11: int, x: Fraction, y: Fraction) -> int {
    trunc_div(bilerp_scaled(v00, v01, v10, v11, x, y), x.den as int * y.den as int)
}

/// Scaling by a positive number and dividing back gives the number again.
proof fn lemma_trunc_div_scaled(v: int, d: int)
    requires
        d > 0,
    ensures
        trunc_div(v * d, d) == v,
{
    if v >= 0 {
        assert(v * d >= 0) by (nonlinear_arith)
            requires
                v >= 0,
                d > 0,
        ;
        vstd::arithmetic::div_mod::lemma_div_by_multiple(v, d);
    } else {
        assert(v * d < 0) by (nonlinear_arith)
            requires
                v < 0,
                d > 0,
        ;
        assert(-(v * d) == (-v) * d) by (nonlinear_arith);
        vstd::arithmetic::div_mod::lemma_div_by_multiple(-v, d);
    }
}

/// At position 0 linear interpolation gives the first sample, at position 1 the second.
pub proof fn lemma_lerp_exact_ends(a: int, b: int, x: Fraction)
    requires
        x.wf(),
    ensures
        x.is_zero() ==> lerp_exact(a, b, x) == a,
        x.is_one() ==> lerp_exact(a, b, x) == b,
{
    let d = x.den as int;
    lemma_trunc_div_scaled(a, d);
    lemma_trunc_div_scaled(b, d);
    if x.is_zero() {
        assert(lerp_scaled(a, b, x) == a * d) by (nonlinear_arith)
            requires
                x.num == 0,
                d == x.den,
        ;
    }
    if x.is_one() {
        assert(lerp_scaled(a, b, x) == b * d) by (nonlinear_arith)
            requires
                x.num == d,
                d == x.den,
        ;
    }
}

/// At the four corners of the unit square bilinear interpolation gives the corner samples.
pub proof fn lemma_bilerp_exact_corners(v00: int, v01: int, v10: int, v11: int, x: Fraction, y: Fraction)
    requires
        x.wf(),
        y.wf(),
    ensures
        x.is_zero() && y.is_zero() ==> bilerp_exact(v00, v01, v10, v11, x, y) == v00,
        x.is_zero() && y.is_one() ==> bilerp_exact(v00, v01, v10, v11, x, y) == v01,
        x.is_one() && y.is_zero() ==> bilerp_exact(v00, v01, v10, v11, x, y) == v10,
        x.is_one() && y.is_one() ==> bilerp_exact(v00, v01, v10, v11, x, y) == v11,
{
    let (xn, dx, yn, dy) = (x.num as int, x.den as int, y.num as int, y.den as int);
    assert(dx * dy > 0) by (nonlinear_arith)
        requires
            dx > 0,
            dy > 0,
    ;
    let s = bilerp_scaled(v00, v01, v10, v11, x, y);
    if (xn == 0 || xn == dx) && (yn == 0 || yn == dy) {
        let c = if xn == 0 {
            if yn == 0 {
                v00
            } else {
                v01
            }
        } else {
            if yn == 0 {
                v10
            } else {
                v11
            }
        };
        assert(s == c * (dx * dy)) by (nonlinear_arith)
            requires
                s == v00 * (dx - xn) * (dy - yn) + v10 * xn * (dy - yn) + v01 * (dx - xn) * yn + v11
                    * xn * yn,
                xn == 0 || xn == dx,
                yn == 0 || yn == dy,
                c == (if xn == 0 {
                    if yn == 0 {
                        v00
                    } else {
                        v01
                    }
                } else {
                    if yn == 0 {
                        v10
                    } else {
                        v11
                    }
                }),
        ;
        lemma_trunc_div_scaled(c, dx * dy);
    }
}

/// Interpolating the rows along `y` and then the results along `x`, or the columns
/// along `x` and then the results along `y`, gives the closed bilinear formula,
/// when no intermediate value is truncated.
pub proof fn lemma_bilerp_axes_compose(v00: int, v01: int, v10: int, v11: int, x: Fraction, y: Fraction)
    ensures
        lerp_scaled(lerp_scaled(v00, v01, y), lerp_scaled(v10, v11, y), x) == bilerp_scaled(
            v00,
            v01,
            v10,
            v11,
            x,
            y,
        ),
        lerp_scaled(lerp_scaled(v00, v10, x), lerp_scaled(v01, v11, x), y) == bilerp_scaled(
            v00,
            v01,
            v10,
            v11,
            x,
            y,
        ),
{
    let (xn, dx, yn, dy) = (x.num as int, x.den as int, y.num as int, y.den as int);
    assert(v00 * (dx - xn) * (dy - yn) == v00 * dx * dy - v00 * xn * dy - v00 * dx * yn + v00 * xn
        * yn) by (nonlinear_arith);
    assert(v10 * xn * (dy - yn) == v10 * xn * dy - v10 * xn * yn) by (nonlinear_arith);
    assert(v01 * (dx - xn) * yn == v01 * dx * yn - v01 * xn * yn) by (nonlinear_arith);
    // rows along y, then along x
    assert((v00 * dy + yn * (v01 - v00)) * dx == v00 * dx * dy + v01 * dx * yn - v00 * dx * yn)
        by (nonlinear_arith);
    assert(xn * ((v10 * dy + yn * (v11 - v10)) - (v00 * dy + yn * (v01 - v00))) == xn * (v10 * dy
        + yn * (v11 - v10)) - xn * (v00 * dy + yn * (v01 - v00))) by (nonlinear_arith);
    assert(xn * (v10 * dy + yn * (v11 - v10)) == v10 * xn * dy + v11 * xn * yn - v10 * xn * yn)
        by (nonlinear_arith);
    assert(xn * (v00 * dy + yn * (v01 - v00)) == v00 * xn * dy + v01 * xn * yn - v00 * xn * yn)
        by (nonlinear_arith);
    // columns along x, then along y
    assert((v00 * dx + xn * (v10 - v00)) * dy == v00 * dx * dy + v10 * xn * dy - v00 * xn * dy)
        by (nonlinear_arith);
    assert(yn * ((v01 * dx + xn * (v11 - v01)) - (v00 * dx + xn * (v10 - v00))) == v01 * dx * yn
        + v11 * xn * yn - v01 * xn * yn - v00 * dx * yn - v10 * xn * yn + v00 * xn * yn)
        by (nonlinear_arith);
}

/// Divides with truncation toward zero.
fn trunc_div_i128(n: i128, d: i128) -> (r: i128)
    requires
        d > 0,
        -0x7fff_ffff_ffff_ffff_ffff_ffff_ffff_ffff <= n,
    ensures
        r == trunc_div(n as int, d as int),
{
    if n >= 0 {
        n / d
    } else {
        let m: i128 = -n;
        -(m / d)
    }
}

/// Limits `v` to `[lo, hi]`.
fn clamp_i128(v: i128, lo: i128, hi: i128) -> (r: i128)
    requires
        lo <= hi,
    ensures
        r == clamp(v as int, lo as int, hi as int),
{
    if v < lo {
        lo
    } else if v > hi {
        hi
    } else {
        v
    }
}

/// Bound on the magnitude of the sample values handled by the wide helpers.
pub open spec fn in_wide_range(v: int) -> bool {
    -0x1_0000_0000_0000_0000 < v < 0x1_0000_0000_0000_0000
}

/// Linear interpolation of two samples of an integer type whose range is `[lo, hi]`,
/// saturated to that range.
pub fn lerp_wide(a: i128, b: i128, x: Fraction, lo: i128, hi: i128) -> (r: i128)
    requires
        x.wf(),
        lo <= hi,
        in_wide_range(lo as int),
        in_wide_range(hi as int),
        lo <= a <= hi,
        lo <= b <= hi,
    ensures
        r == clamp(lerp_exact(a as int, b as int, x), lo as int, hi as int),
        lo <= r <= hi,
        x.is_zero() ==> r == a,
        x.is_one() ==> r == b,
{
    proof {
        lemma_lerp_exact_ends(a as int, b as int, x);
    }
    let den: i128 = x.den as i128;
    let num: i128 = x.num as i128;
    proof {
        let (ai, bi, ni, di) = (a as int, b as int, num as int, den as int);
        assert(-0x1_0000_0000_0000_0000_0000 < ai * di < 0x1_0000_0000_0000_0000_0000) by (nonlinear_arith)
            requires
                -0x1_0000_0000_0000_0000 < ai < 0x1_0000_0000_0000_0000,
                0 < di <= 0xffff,
        ;
        assert(-0x1_0000_0000_0000_0000_0000 < ni * (bi - ai) < 0x1_0000_0000_0000_0000_0000) by (nonlinear_arith)
            requires
                -0x2_0000_0000_0000_0000 < bi - ai < 0x2_0000_0000_0000_0000,
                -0x8000 <= ni <= 0x7fff,
        ;
    }
    let scaled: i128 = a * den + num * (b - a);
    let q = trunc_div_i128(scaled, den);
    clamp_i128(q, lo, hi)
}

/// A product of a sample value and two position factors stays far inside `i128`.
proof fn lemma_term_bound(v: int, p: int, q: int)
    requires
        in_wide_range(v),
        -0x2_0000 < p < 0x2_0000,
        -0x2_0000 < q < 0x2_0000,
    ensures
        -0x2_0000_0000_0000_0000_0000 < v * p < 0x2_0000_0000_0000_0000_0000,
        -0x10_0000_0000_0000_0000_0000_0000 < v * p * q < 0x10_0000_0000_0000_0000_0000_0000,
{
    assert(-0x2_0000_0000_0000_0000_0000 < v * p < 0x2_0000_0000_0000_0000_0000) by (nonlinear_arith)
        requires
            -0x1_0000_0000_0000_0000 < v < 0x1_0000_0000_0000_0000,
            -0x2_0000 < p < 0x2_0000,
    ;
    assert(-0x4_0000_0000 < p * q < 0x4_0000_0000) by (nonlinear_arith)
        requires
            -0x2_0000 < p < 0x2_0000,
            -0x2_0000 < q < 0x2_0000,
    ;
    assert(-0x10_0000_0000_0000_0000_0000_0000 < v * (p * q) < 0x10_0000_0000_0000_0000_0000_0000) by (nonlinear_arith)
        requires
            -0x1_0000_0000_0000_0000 < v < 0x1_0000_0000_0000_0000,
            -0x4_0000_0000 < p * q < 0x4_0000_0000,
    ;
    assert(v * p * q == v * (p * q)) by (nonlinear_arith);
}

/// Bilinear interpolation of four samples of an integer type whose range is `[lo, hi]`,
/// computed by the closed formula and saturated to that range.
pub fn bilerp_wide(v00: i128, v01: i128, v10: i128, v11: i128, x: Fraction, y: Fraction, lo: i128, hi: i128) -> (r: i128)
    requires
        x.wf(),
        y.wf(),
        lo <= hi,
        in_wide_range(lo as int),
        in_wide_range(hi as int),
        lo <= v00 <= hi,
        lo <= v01 <= hi,
        lo <= v10 <= hi,
        lo <= v11 <= hi,
    ensures
        r == clamp(
            bilerp_exact(v00 as int, v01 as int, v10 as int, v11 as int, x, y),
            lo as int,
            hi as int,
        ),
        lo <= r <= hi,
        x.is_zero() && y.is_zero() ==> r == v00,
        x.is_zero() && y.is_one() ==> r == v01,
        x.is_one() && y.is_zero() ==> r == v10,
        x.is_one() && y.is_one() ==> r == v11,
{
    proof {
        lemma_bilerp_exact_corners(v00 as int, v01 as int, v10 as int, v11 as int, x, y);
    }
    let xn: i128 = x.num as i128;
    let dx: i128 = x.den as i128;
    let yn: i128 = y.num as i128;
    let dy: i128 = y.den as i128;
    let (cx, cy) = (dx - xn, dy - yn);
    proof {
        lemma_term_bound(v00 as int, cx as int, cy as int);
        lemma_term_bound(v10 as int, xn as int, cy as int);
        lemma_term_bound(v01 as int, cx as int, yn as int);
        lemma_term_bound(v11 as int, xn as int, yn as int);
        assert(0 < dx * dy <= 0xffff * 0xffff) by (nonlinear_arith)
            requires
                0 < dx <= 0xffff,
                0 < dy <= 0xffff,
        ;
    }
    let scaled: i128 = v00 * cx * cy + v10 * xn * cy + v01 * cx * yn + v11 * xn * yn;
    let q = trunc_div_i128(scaled, dx * dy);
    clamp_i128(q, lo, hi)
}

} // verus!
