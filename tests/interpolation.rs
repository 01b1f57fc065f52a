use interpolate::array::interpolate_array;
use interpolate::fraction::Fraction;
use interpolate::interpolate::Interpolate;
use interpolate::rgb::Rgb;

fn half() -> Fraction {
    Fraction::new(1, 2)
}

#[test]
fn custom_type_lerp_test() {
    let start = Rgb { r: 0, g: 255, b: 0 };
    let end = Rgb { r: 100, g: 0, b: 200 };
    assert_eq!(Rgb::lerp([start, end], half()), Rgb { r: 50, g: 127, b: 100 });
}

#[test]
fn interpolate_array_test() {
    let start: [u8; 3] = [0, 255, 0];
    let end: [u8; 3] = [100, 0, 200];

    let mut output = [0u8; 3];
    interpolate_array([&start, &end], &mut output, half());

    assert_eq!(output, [50, 127, 100]);
}

#[test]
fn lerp_endpoints_give_the_samples() {
    let zero = Fraction::new(0, 7);
    let one = Fraction::new(7, 7);
    assert_eq!(u8::lerp([13, 200], zero), 13);
    assert_eq!(u8::lerp([13, 200], one), 200);
    assert_eq!(i64::lerp([i64::MIN, i64::MAX], zero), i64::MIN);
    assert_eq!(i64::lerp([i64::MIN, i64::MAX], one), i64::MAX);
    assert_eq!(u64::lerp([u64::MAX, 0], one), 0);
    let c0 = Rgb { r: 1, g: 2, b: 3 };
    let c1 = Rgb { r: 250, g: 0, b: 99 };
    assert_eq!(Rgb::lerp([c0, c1], zero), c0);
    assert_eq!(Rgb::lerp([c0, c1], one), c1);
}

#[test]
fn lerp_truncates_instead_of_rounding() {
    assert_eq!(u8::lerp([0, 1], Fraction::new(99, 100)), 0);
    assert_eq!(u8::lerp([0, 1], Fraction::new(33, 100)), 0);
    assert_eq!(u16::lerp([0, 3], Fraction::new(1, 2)), 1);
}

#[test]
fn lerp_truncates_toward_zero_for_negative_results() {
    // -0.5 becomes 0, not -1
    assert_eq!(i8::lerp([1, -2], half()), 0);
    // -2.5 becomes -2
    assert_eq!(i32::lerp([0, -5], half()), -2);
    assert_eq!(i16::lerp([-10, 10], Fraction::new(1, 4)), -5);
}

#[test]
fn lerp_exact_formula_values() {
    assert_eq!(u32::lerp([10, 20], Fraction::new(3, 10)), 13);
    assert_eq!(i64::lerp([-100, 100], Fraction::new(3, 4)), 50);
    assert_eq!(u64::lerp([u64::MAX - 10, u64::MAX], half()), u64::MAX - 5);
}

#[test]
fn lerp_extrapolates_and_saturates() {
    assert_eq!(u8::lerp([0, 10], Fraction::new(3, 1)), 30);
    assert_eq!(u8::lerp([0, 200], Fraction::new(2, 1)), 255);
    assert_eq!(u8::lerp([10, 20], Fraction::new(-2, 1)), 0);
    assert_eq!(i8::lerp([-100, 100], Fraction::new(-1, 1)), -128);
    assert_eq!(i64::lerp([0, i64::MAX], Fraction::new(2, 1)), i64::MAX);
}

#[test]
fn bilerp_corners_give_the_samples() {
    let v: [[i32; 2]; 2] = [[-7, 40], [1000, -3]];
    let zero = Fraction::new(0, 3);
    let one = Fraction::new(3, 3);
    assert_eq!(i32::bilerp(v, zero, zero), -7);
    assert_eq!(i32::bilerp(v, zero, one), 40);
    assert_eq!(i32::bilerp(v, one, zero), 1000);
    assert_eq!(i32::bilerp(v, one, one), -3);
    let c = [[Rgb { r: 1, g: 2, b: 3 }, Rgb { r: 4, g: 5, b: 6 }], [Rgb { r: 7, g: 8, b: 9 }, Rgb { r: 10, g: 11, b: 12 }]];
    assert_eq!(Rgb::bilerp(c, zero, zero), c[0][0]);
    assert_eq!(Rgb::bilerp(c, zero, one), c[0][1]);
    assert_eq!(Rgb::bilerp(c, one, zero), c[1][0]);
    assert_eq!(Rgb::bilerp(c, one, one), c[1][1]);
}

#[test]
fn bilerp_integer_truncates_only_the_final_value() {
    // rows first: lerp(0, 1, 1/2) = 0 and lerp(1, 2, 1/2) = 1, then 0 at 1/2 = 0;
    // the closed formula gives (0 + 1 + 1 + 2) / 4 = 1
    let v: [[u8; 2]; 2] = [[0, 1], [1, 2]];
    assert_eq!(u8::bilerp(v, half(), half()), 1);
    assert_eq!(u8::bilerp([[0, 10], [20, 30]], half(), half()), 15);
    assert_eq!(i16::bilerp([[0, -3], [-3, -6]], half(), half()), -3);
}

#[test]
fn bilerp_default_interpolates_rows_then_columns() {
    let c = [
        [Rgb { r: 0, g: 0, b: 0 }, Rgb { r: 1, g: 100, b: 0 }],
        [Rgb { r: 1, g: 0, b: 0 }, Rgb { r: 2, g: 200, b: 255 }],
    ];
    let y = half();
    let x = half();
    let row0 = Rgb::lerp([c[0][0], c[0][1]], y);
    let row1 = Rgb::lerp([c[1][0], c[1][1]], y);
    assert_eq!(Rgb::bilerp(c, x, y), Rgb::lerp([row0, row1], x));
    assert_eq!(Rgb::bilerp(c, x, y), Rgb { r: 0, g: 75, b: 63 });
}

#[test]
fn rgb_lerp_is_channelwise() {
    let a = Rgb { r: 10, g: 250, b: 7 };
    let b = Rgb { r: 90, g: 3, b: 7 };
    let x = Fraction::new(3, 8);
    let c = Rgb::lerp([a, b], x);
    assert_eq!(c.r, u8::lerp([a.r, b.r], x));
    assert_eq!(c.g, u8::lerp([a.g, b.g], x));
    assert_eq!(c.b, u8::lerp([a.b, b.b], x));
}

#[test]
fn interpolate_array_leaves_trailing_output_untouched() {
    let start: [i16; 2] = [0, 100];
    let end: [i16; 2] = [10, -100];
    let mut output: [i16; 5] = [7, 7, 7, 7, 7];
    interpolate_array([&start, &end], &mut output, half());
    assert_eq!(output, [5, 0, 7, 7, 7]);
}

#[test]
fn interpolate_array_stops_at_shortest_input() {
    let start: [u32; 4] = [0, 10, 20, 30];
    let end: [u32; 2] = [100, 110];
    let mut output: [u32; 4] = [1, 2, 3, 4];
    interpolate_array([&start, &end], &mut output, Fraction::new(1, 10));
    assert_eq!(output, [10, 20, 3, 4]);
}

#[test]
fn interpolate_array_with_short_output() {
    let start: [u8; 3] = [0, 0, 0];
    let end: [u8; 3] = [10, 20, 30];
    let mut output: [u8; 2] = [0, 0];
    interpolate_array([&start, &end], &mut output, half());
    assert_eq!(output, [5, 10]);
}

#[test]
fn interpolate_array_on_empty_input() {
    let empty: [u8; 0] = [];
    let mut output: [u8; 2] = [9, 9];
    interpolate_array([&empty, &empty], &mut output, half());
    assert_eq!(output, [9, 9]);
}
