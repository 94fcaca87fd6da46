use sdf_csg::decimal::{append_int, append_nat, append_padded, digit_str, usize_to_string};
use sdf_csg::scalar::{div_round, isqrt, Scalar, MAX_UNITS, UNITS_PER_ONE};
use sdf_csg::vector::{shader_mat3, shader_vec3, IVec3, Mat3, Vec3};

fn num(x: f64) -> Scalar {
    Scalar::from_units((x * 1e8).round() as i64).unwrap()
}

fn v3(x: f64, y: f64, z: f64) -> Vec3 {
    Vec3::new(num(x), num(y), num(z))
}

#[test]
fn digits_are_single_characters() {
    let all: Vec<&str> = (0u8..10).map(digit_str).collect();
    assert_eq!(all, vec!["0", "1", "2", "3", "4", "5", "6", "7", "8", "9"]);
}

#[test]
fn naturals_are_written_without_leading_zeros() {
    assert_eq!(usize_to_string(0), "0");
    assert_eq!(usize_to_string(7), "7");
    assert_eq!(usize_to_string(10), "10");
    assert_eq!(usize_to_string(1234567890), "1234567890");
    let mut s = String::from("x");
    append_nat(&mut s, u128::MAX);
    assert_eq!(s, format!("x{}", u128::MAX));
}

#[test]
fn integers_carry_their_sign() {
    let mut s = String::new();
    append_int(&mut s, -42);
    append_int(&mut s, 0);
    append_int(&mut s, 17);
    assert_eq!(s, "-42017");
    let mut lowest = String::new();
    append_int(&mut lowest, i64::MIN);
    assert_eq!(lowest, format!("{}", i64::MIN));
}

#[test]
fn padded_text_keeps_the_last_digits() {
    let mut s = String::new();
    append_padded(&mut s, 42, 8);
    assert_eq!(s, "00000042");
    let mut cut = String::new();
    append_padded(&mut cut, 123456, 3);
    assert_eq!(cut, "456");
    let mut none = String::new();
    append_padded(&mut none, 5, 0);
    assert_eq!(none, "");
}

#[test]
fn scalars_have_eight_fractional_digits() {
    assert_eq!(num(0.0).text(), "0.00000000");
    assert_eq!(num(1.0).text(), "1.00000000");
    assert_eq!(num(-1.5).text(), "-1.50000000");
    assert_eq!(Scalar::from_units(1).unwrap().text(), "0.00000001");
    assert_eq!(Scalar::from_units(-1).unwrap().text(), "-0.00000001");
    assert_eq!(Scalar::from_units(12_345_678_987_654_321).unwrap().text(), "123456789.87654321");
    assert_eq!(Scalar::from_units(MAX_UNITS).unwrap().text(), "10000000000.00000000");
    assert_eq!(Scalar::from_units(-MAX_UNITS).unwrap().text(), "-10000000000.00000000");
}

#[test]
fn scalar_text_agrees_with_fixed_precision_formatting() {
    let mut units: i64 = -1_000_000_007;
    while units < 1_000_000_000_000 {
        let expected = format!("{:.8}", units as f64 / 1e8);
        assert_eq!(Scalar::from_units(units).unwrap().text(), expected, "units {}", units);
        units += 9_876_543_211;
    }
    for units in -250i64..250 {
        let expected = format!("{:.8}", units as f64 / 1e8);
        let expected = if units == 0 { "0.00000000".to_string() } else { expected };
        assert_eq!(Scalar::from_units(units * 1_000_003).unwrap().text().len() > 9, true);
        assert_eq!(Scalar::from_units(units).unwrap().text(), expected);
    }
}

#[test]
fn scalars_are_bounded() {
    assert!(Scalar::from_units(MAX_UNITS).is_some());
    assert!(Scalar::from_units(-MAX_UNITS).is_some());
    assert!(Scalar::from_units(MAX_UNITS + 1).is_none());
    assert!(Scalar::from_units(-MAX_UNITS - 1).is_none());
    assert!(Scalar::from_units(i64::MAX).is_none());
    assert!(Scalar::from_units(i64::MIN).is_none());
}

#[test]
fn scalar_accessors() {
    assert_eq!(Scalar::zero().units(), 0);
    assert_eq!(Scalar::from_int(3).units(), 3 * UNITS_PER_ONE);
    assert_eq!(Scalar::from_int(i32::MIN).units(), i32::MIN as i64 * UNITS_PER_ONE);
    assert_eq!(Scalar::from_int(i32::MAX).text(), "2147483647.00000000");
    assert_eq!(num(2.5).neg().units(), -250_000_000);
    assert_eq!(num(-2.5).abs().units(), 250_000_000);
    assert_eq!(num(2.5).abs().units(), 250_000_000);
}

#[test]
fn halves_round_ties_to_even() {
    assert_eq!(num(1.0).half().units(), 50_000_000);
    assert_eq!(Scalar::from_units(1).unwrap().half().units(), 0);
    assert_eq!(Scalar::from_units(3).unwrap().half().units(), 2);
    assert_eq!(Scalar::from_units(5).unwrap().half().units(), 2);
    assert_eq!(Scalar::from_units(-3).unwrap().half().units(), -2);
    assert_eq!(Scalar::from_units(-5).unwrap().half().units(), -2);
    assert_eq!(Scalar::from_units(MAX_UNITS).unwrap().half().units(), MAX_UNITS / 2);
}

#[test]
fn division_rounds_to_nearest_and_ties_to_even() {
    assert_eq!(div_round(7, 2), 4);
    assert_eq!(div_round(5, 2), 2);
    assert_eq!(div_round(-7, 2), -4);
    assert_eq!(div_round(7, -2), -4);
    assert_eq!(div_round(-7, -2), 4);
    assert_eq!(div_round(10, 3), 3);
    assert_eq!(div_round(11, 3), 4);
    assert_eq!(div_round(-11, 3), -4);
    assert_eq!(div_round(0, 5), 0);
    assert_eq!(div_round(1, 3), 0);
    assert_eq!(div_round(10_000_000_000_000_000, 300_000_000), 33_333_333);
}

#[test]
fn square_roots_round_down() {
    assert_eq!(isqrt(0), 0);
    assert_eq!(isqrt(1), 1);
    assert_eq!(isqrt(2), 1);
    assert_eq!(isqrt(3), 1);
    assert_eq!(isqrt(4), 2);
    assert_eq!(isqrt(15), 3);
    assert_eq!(isqrt(16), 4);
    assert_eq!(isqrt(10_000_000_000_000_000), 100_000_000);
    assert_eq!(isqrt(9_999_999_999_999_999), 99_999_999);
    let largest: u128 = (1u128 << 126) - 1;
    assert_eq!(isqrt(largest), (1u128 << 63) - 1);
}

#[test]
fn vectors_are_written_as_vec3() {
    assert_eq!(shader_vec3(&v3(1.0, -2.5, 0.0)), "vec3(1.00000000, -2.50000000, 0.00000000)");
    let mut s = String::from("a");
    v3(0.5, 0.25, 0.125).append_to(&mut s);
    assert_eq!(s, "avec3(0.50000000, 0.25000000, 0.12500000)");
    assert_eq!(v3(0.5, 0.25, 0.125).components(), "0.50000000, 0.25000000, 0.12500000");
}

#[test]
fn whole_vectors_are_written_with_a_fraction() {
    let mut s = String::new();
    IVec3::new(-1, 0, 12).append_to(&mut s);
    assert_eq!(s, "vec3(-1.00000000, 0.00000000, 12.00000000)");
}

#[test]
fn vector_helpers() {
    assert_eq!(v3(3.0, 1.0, 2.0).least(), num(1.0));
    assert_eq!(v3(1.0, 3.0, 2.0).least(), num(1.0));
    assert_eq!(v3(3.0, 2.0, 1.0).least(), num(1.0));
    assert_eq!(v3(1.0, 3.0, 5.0).half(), v3(0.5, 1.5, 2.5));
    assert!(v3(1.0, 2.0, 3.0).same(&v3(1.0, 2.0, 3.0)));
    assert!(!v3(1.0, 2.0, 3.0).same(&v3(1.0, 2.0, 3.5)));
}

#[test]
fn matrices_are_written_by_columns() {
    let m = Mat3 { c0: v3(1.0, 2.0, 3.0), c1: v3(4.0, 5.0, 6.0), c2: v3(7.0, 8.0, 9.0) };
    assert_eq!(
        shader_mat3(&m),
        "mat3(1.00000000, 2.00000000, 3.00000000,\n                  4.00000000, 5.00000000, 6.00000000,\n                  7.00000000, 8.00000000, 9.00000000)"
    );
}
