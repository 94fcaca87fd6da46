use sdf_csg::{Angle, BooleanKind, Error, IVec3, Scalar, Vec3};

fn num(x: f64) -> Scalar {
    Scalar::from_units((x * 1e8).round() as i64).unwrap()
}

fn v3(x: f64, y: f64, z: f64) -> Vec3 {
    Vec3::new(num(x), num(y), num(z))
}

#[test]
fn messages_of_bad_leaves() {
    assert_eq!(
        Error::NonPositiveRadius { radius: num(-1.0) }.message(),
        "radius should be positive (was -1.00000000)."
    );
    assert_eq!(
        Error::NegativeRadius { radius: num(-0.5) }.message(),
        "rounding radius should not be negative (was -0.50000000)."
    );
    assert_eq!(
        Error::NegativeHeight { height: num(-2.0) }.message(),
        "height should not be negative (was -2.00000000)."
    );
    assert_eq!(Error::ZeroHeight.message(), "Height must be > 0.");
    assert_eq!(Error::ZeroNormal.message(), "Normal must be != 0.");
    assert_eq!(
        Error::NonPositiveSize { size: v3(1.0, 0.0, 2.0) }.message(),
        "all dimensions must be greater zero (was vec3(1.00000000, 0.00000000, 2.00000000))."
    );
}

#[test]
fn messages_of_bad_tori_and_angles() {
    assert_eq!(
        Error::InnerNotSmaller { inner: num(2.0), outer: num(1.0) }.message(),
        "inner radius must be smaller than outer radius (were 2.00000000 and 1.00000000)."
    );
    assert_eq!(
        Error::NonPositiveOuter { outer: num(0.0) }.message(),
        "outer radius must be greater than 0 (was 0.00000000)."
    );
    let negative = Angle::new(num(-0.5), num(0.0), num(1.0)).unwrap();
    assert_eq!(
        Error::NegativeCapAngle { angle: negative }.message(),
        "cap_angle must be positive (was -0.50000000)!"
    );
    let wide = Angle::new(num(4.0), num(0.0), num(1.0)).unwrap();
    assert_eq!(
        Error::CapAngleTooLarge { angle: wide }.message(),
        "cap_angle must be less equal than pi (was 4.00000000)!"
    );
    assert_eq!(
        Error::NotOnUnitCircle { sin: num(1.0), cos: num(0.5) }.message(),
        "sine and cosine must lie on the unit circle (were 1.00000000 and 0.50000000)."
    );
}

#[test]
fn messages_of_bad_wrappers() {
    assert_eq!(
        Error::NonPositiveCell { cell: v3(1.0, -1.0, 1.0) }.message(),
        "bound must be larger 0 (was vec3(1.00000000, -1.00000000, 1.00000000))."
    );
    assert_eq!(
        Error::EmptyRepeatRange { min: IVec3::new(1, 0, 0), max: IVec3::new(0, 0, -2) }.message(),
        "repeats range must non-negative (was vec3(1.00000000, 0.00000000, 0.00000000) - vec3(0.00000000, 0.00000000, -2.00000000))."
    );
    assert_eq!(
        Error::ZeroScale { scale: v3(0.0, 1.0, 1.0) }.message(),
        "no component of a scale may be zero (was vec3(0.00000000, 1.00000000, 1.00000000))."
    );
    assert_eq!(Error::ZeroTwistHeight.message(), "height per rotation must not be zero.");
}

#[test]
fn messages_of_bad_booleans() {
    assert_eq!(
        Error::TooFewChildren { got: 1 }.message(),
        "Boolean requires at least 2 children (got only 1)."
    );
    assert_eq!(
        Error::NoChildren.message(),
        "Difference requires at least one child (got none)."
    );
    let labels = [
        (BooleanKind::Default, "Default", "MinDefault"),
        (BooleanKind::Polynomial, "Polynomial", "MinPolynomial"),
        (BooleanKind::CubicPolynomial, "Cubic polynomial", "MinCubicPolynomial"),
        (BooleanKind::Root, "Root", "MinRoot"),
        (BooleanKind::Exponential, "Exponential", "MinExponential"),
        (BooleanKind::Chamfer, "Chamfer", "MinChamfer"),
        (BooleanKind::Stairs, "Stairs", "MinStairs"),
    ];
    for (kind, label, name) in labels {
        assert_eq!(
            Error::KernelArity { kind, got: 13 }.message(),
            format!("{} min requires exactly two arguments (got 13).", label)
        );
        assert_eq!(
            Error::NegativeSmoothing { kind, k: num(-0.25) }.message(),
            format!("{} requires k >= 0.0, got k=-0.25000000.", name)
        );
    }
    assert_eq!(
        Error::NonPositiveSteps { n: -4 }.message(),
        "MinStairs requires n > 0, got n=-4"
    );
}

#[test]
fn messages_of_bad_meshes() {
    assert_eq!(
        Error::IndexCount { count: 4 }.message(),
        "indices.len() is not divisible by 3 (was 4)."
    );
    assert_eq!(
        Error::IndexOutOfRange { position: 7 }.message(),
        "the index at position 7 names no vertex."
    );
}
