use sdf_csg::{
    Angle, Bend, Error, ExactBox, IVec3, Primitive, Repeat, Rotate, Scalar, Scale, Sphere,
    Translate, Twist, Vec3,
};

const TWIST_HELPER: &str = "\nvec3 TwistXY(vec3 p, float rad_per_h) {\n    float a = p.z * rad_per_h;\n    float sin_a = sin(a);\n    float cos_a = cos(a);\n    mat2 rmat = mat2(cos_a, -sin_a, sin_a, cos_a);\n    return vec3(rmat * p.xy, p.z);\n}\n";
const BEND_HELPER: &str = "\nvec3 BendAroundZ(vec3 p, float y_scale) {\n    float a = atan(p.x, p.y);\n    float r = length(p.xy);\n    return vec3(a * y_scale, r, p.z);\n}\n";
const BOX_HELPER: &str = "\nfloat Box( vec3 p, vec3 b ) {\n    vec3 q = abs(p) - b;\n    return length(max(q,0.0)) + min(max(q.x,max(q.y,q.z)),0.0);\n}\n";

fn num(x: f64) -> Scalar {
    Scalar::from_units((x * 1e8).round() as i64).unwrap()
}

fn v3(x: f64, y: f64, z: f64) -> Vec3 {
    Vec3::new(num(x), num(y), num(z))
}

fn angle(radians: f64) -> Angle {
    Angle::new(num(radians), num(radians.sin()), num(radians.cos())).unwrap()
}

fn sphere() -> Primitive {
    Sphere::new(num(1.0)).unwrap()
}

fn compile(shape: &Primitive) -> (String, Vec<String>) {
    let mut code = Vec::new();
    let expr = shape.expression("p", &mut code);
    (expr, code)
}

#[test]
fn translate_evaluates_the_child_at_the_point_less_the_vector() {
    let moved = sphere().translate(v3(2.0, 0.0, -0.5));
    let (expr, code) = compile(&moved);
    assert_eq!(expr, "length((p) - vec3(2.00000000, 0.00000000, -0.50000000)) - 1.00000000");
    assert!(code.is_empty());
    let direct = Translate::new(sphere(), v3(2.0, 0.0, -0.5));
    assert_eq!(direct.vector(), v3(2.0, 0.0, -0.5));
    assert_eq!(compile(direct.primitive()).0, "length(p) - 1.00000000");
    assert_eq!(compile(&Primitive::Translate(direct)).0, expr);
}

#[test]
fn translations_nest_from_the_outside_in() {
    let twice = sphere().translate(v3(1.0, 0.0, 0.0)).translate(v3(0.0, 2.0, 0.0));
    assert_eq!(
        compile(&twice).0,
        "length(((p) - vec3(0.00000000, 2.00000000, 0.00000000)) - vec3(1.00000000, 0.00000000, 0.00000000)) - 1.00000000"
    );
}

#[test]
fn rotation_by_no_angle_is_the_identity() {
    let zero = angle(0.0);
    let turned = sphere().rotate_euler(zero, zero, zero);
    assert_eq!(
        compile(&turned).0,
        "length(mat3(1.00000000, 0.00000000, 0.00000000,\n                  0.00000000, 1.00000000, 0.00000000,\n                  0.00000000, 0.00000000, 1.00000000) * (p)) - 1.00000000"
    );
}

fn matrix(r: f64, p: f64, y: f64) -> [f64; 9] {
    let turned = Rotate::from_euler(sphere(), angle(r), angle(p), angle(y));
    let m = turned.matrix();
    [m.c0.x, m.c0.y, m.c0.z, m.c1.x, m.c1.y, m.c1.z, m.c2.x, m.c2.y, m.c2.z]
        .map(|s| s.units() as f64 / 1e8)
}

#[test]
fn quarter_turns_about_each_axis() {
    let quarter = std::f64::consts::FRAC_PI_2;
    assert_eq!(matrix(quarter, 0.0, 0.0), [0., 1., 0., -1., 0., 0., 0., 0., 1.]);
    assert_eq!(matrix(0.0, quarter, 0.0), [1., 0., 0., 0., 0., 1., 0., -1., 0.]);
    assert_eq!(matrix(0.0, 0.0, quarter), [0., 0., -1., 0., 1., 0., 1., 0., 0.]);
}

#[test]
fn euler_angles_compose_as_pitch_then_yaw_then_roll() {
    let (r, p, y) = (0.3f64, -0.7f64, 1.1f64);
    let (sr, cr, sp, cp, sy, cy) = (r.sin(), r.cos(), p.sin(), p.cos(), y.sin(), y.cos());
    let expected = [
        cy * cr,
        cp * sr + sp * sy * cr,
        sp * sr - cp * sy * cr,
        -cy * sr,
        cp * cr - sp * sy * sr,
        sp * cr + cp * sy * sr,
        sy,
        -sp * cy,
        cp * cy,
    ];
    let got = matrix(r, p, y);
    for i in 0..9 {
        assert!((got[i] - expected[i]).abs() < 5e-8, "entry {}: {} and {}", i, got[i], expected[i]);
    }
}

#[test]
fn rotate_keeps_its_child() {
    let turned = Rotate::from_euler(sphere(), angle(0.0), angle(0.0), angle(0.0));
    assert_eq!(compile(turned.primitive()).0, "length(p) - 1.00000000");
}

#[test]
fn scale_divides_the_point_and_multiplies_the_distance() {
    let scaled = sphere().scale(v3(2.0, 4.0, 8.0)).unwrap();
    let (expr, code) = compile(&scaled);
    assert_eq!(
        expr,
        "(length((p) * vec3(0.50000000, 0.25000000, 0.12500000)) - 1.00000000) * 2.00000000"
    );
    assert!(code.is_empty());
}

#[test]
fn scale_takes_the_smallest_magnitude() {
    let s = Scale::new(sphere(), v3(-3.0, 0.5, 4.0)).unwrap();
    assert_eq!(s.scale(), v3(-3.0, 0.5, 4.0));
    assert_eq!(s.inverse(), v3(-0.33333333, 2.0, 0.25));
    assert_eq!(s.least_magnitude(), num(0.5));
    assert_eq!(compile(s.primitive()).0, "length(p) - 1.00000000");
    let mirrored = Scale::new(sphere(), v3(-2.0, -3.0, -4.0)).unwrap();
    assert_eq!(mirrored.least_magnitude(), num(2.0));
}

#[test]
fn uniform_scale_multiplies_by_the_scale() {
    for s in [0.25, 1.0, 3.0, -2.0] {
        let scaled = Scale::new(sphere(), v3(s, s, s)).unwrap();
        assert_eq!(scaled.least_magnitude(), num(s.abs()));
    }
}

#[test]
fn scale_of_the_smallest_number() {
    let tiny = Scalar::from_units(1).unwrap();
    let s = Scale::new(sphere(), Vec3::new(tiny, tiny, tiny)).unwrap();
    assert_eq!(s.inverse(), v3(1e8, 1e8, 1e8));
    let large = Scale::new(sphere(), v3(1e10, 1e10, 1e10)).unwrap();
    assert_eq!(large.inverse(), v3(0.0, 0.0, 0.0));
}

#[test]
fn no_component_of_a_scale_may_be_zero() {
    for scale in [v3(0.0, 1.0, 1.0), v3(1.0, 0.0, 1.0), v3(1.0, 1.0, 0.0)] {
        assert_eq!(sphere().scale(scale).err(), Some(Error::ZeroScale { scale }));
        assert_eq!(Scale::new(sphere(), scale).err(), Some(Error::ZeroScale { scale }));
    }
}

#[test]
fn repeat_folds_the_point_into_its_cell() {
    let repeated = sphere()
        .repeat(v3(2.0, 3.0, 4.0), IVec3::new(-1, -2, 0), IVec3::new(1, 2, 0))
        .unwrap();
    let (expr, code) = compile(&repeated);
    assert_eq!(
        expr,
        "length((p) - vec3(2.00000000, 3.00000000, 4.00000000) * clamp(round((p) / vec3(2.00000000, 3.00000000, 4.00000000)), vec3(-1.00000000, -2.00000000, 0.00000000), vec3(1.00000000, 2.00000000, 0.00000000))) - 1.00000000"
    );
    assert!(code.is_empty());
}

#[test]
fn repeat_keeps_its_parameters() {
    let r = Repeat::new(sphere(), v3(1.0, 1.0, 1.0), IVec3::new(0, 0, 0), IVec3::new(0, 5, 9));
    let r = r.unwrap();
    assert_eq!(r.bounds(), v3(1.0, 1.0, 1.0));
    assert_eq!(r.repeats_min(), IVec3::new(0, 0, 0));
    assert_eq!(r.repeats_max(), IVec3::new(0, 5, 9));
    assert_eq!(compile(r.primitive()).0, "length(p) - 1.00000000");
}

#[test]
fn repeat_is_validated() {
    let flat = v3(1.0, 0.0, 1.0);
    let (lo, hi) = (IVec3::new(0, 0, 0), IVec3::new(1, 1, 1));
    assert_eq!(sphere().repeat(flat, lo, hi).err(), Some(Error::NonPositiveCell { cell: flat }));
    assert_eq!(sphere().repeat(flat, hi, lo).err(), Some(Error::NonPositiveCell { cell: flat }));
    let cell = v3(1.0, 1.0, 1.0);
    for (min, max) in [
        (IVec3::new(1, 0, 0), IVec3::new(0, 0, 0)),
        (IVec3::new(0, 1, 0), IVec3::new(0, 0, 0)),
        (IVec3::new(0, 0, 1), IVec3::new(9, 9, 0)),
    ] {
        assert_eq!(
            Repeat::new(sphere(), cell, min, max).err(),
            Some(Error::EmptyRepeatRange { min, max })
        );
    }
    let extreme = Repeat::new(
        sphere(),
        cell,
        IVec3::new(i32::MIN, i32::MIN, i32::MIN),
        IVec3::new(i32::MAX, i32::MAX, i32::MAX),
    );
    assert!(extreme.is_ok());
}

#[test]
fn twist_turns_by_the_height() {
    let twisted = sphere().twist(num(1.0)).unwrap();
    let (expr, code) = compile(&twisted);
    assert_eq!(expr, "length(TwistXY(p, 6.28318531)) - 1.00000000");
    assert_eq!(code, vec![TWIST_HELPER.to_string()]);
    let slow = Twist::new(sphere(), num(2.0)).unwrap();
    assert_eq!(slow.height_per_rotation(), num(2.0));
    assert_eq!(slow.radians_per_height(), num(3.14159266));
    let back = Twist::new(sphere(), num(-4.0)).unwrap();
    assert_eq!(back.radians_per_height(), num(-1.57079633));
    assert_eq!(compile(back.primitive()).0, "length(p) - 1.00000000");
}

#[test]
fn twist_height_must_not_be_zero() {
    assert_eq!(sphere().twist(num(0.0)).err(), Some(Error::ZeroTwistHeight));
    assert_eq!(Twist::new(sphere(), num(0.0)).err(), Some(Error::ZeroTwistHeight));
}

#[test]
fn bend_scales_the_angle_to_a_length() {
    let bent = sphere().bend(num(1.0));
    let (expr, code) = compile(&bent);
    assert_eq!(expr, "length(BendAroundZ(p, 0.15915494)) - 1.00000000");
    assert_eq!(code, vec![BEND_HELPER.to_string()]);
    let once = Bend::new(sphere(), Scalar::from_units(628_318_531).unwrap());
    assert_eq!(once.bend_scale(), num(1.0));
    assert_eq!(once.distance_for_full_circle(), Scalar::from_units(628_318_531).unwrap());
    assert_eq!(compile(once.primitive()).0, "length(p) - 1.00000000");
    assert_eq!(Bend::new(sphere(), num(0.0)).bend_scale(), num(0.0));
    assert_eq!(
        Bend::new(sphere(), num(-1e10)).bend_scale(),
        Scalar::from_units(-159_154_943_020_453_427).unwrap()
    );
}

#[test]
fn a_warp_appends_its_helper_after_those_of_its_child() {
    let b = ExactBox::new(v3(1.0, 1.0, 1.0)).unwrap();
    let warped = b.twist(num(1.0)).unwrap().bend(num(1.0));
    let (expr, code) = compile(&warped);
    assert_eq!(
        expr,
        "Box(TwistXY(BendAroundZ(p, 0.15915494), 6.28318531), vec3(0.50000000, 0.50000000, 0.50000000))"
    );
    assert_eq!(
        code,
        vec![BOX_HELPER.to_string(), TWIST_HELPER.to_string(), BEND_HELPER.to_string()]
    );
}

#[test]
fn the_builders_leave_the_tree_as_it_was() {
    let shape = sphere();
    let _ = shape.translate(v3(1.0, 1.0, 1.0));
    let _ = shape.scale(v3(2.0, 2.0, 2.0)).unwrap();
    let _ = shape.bend(num(1.0));
    assert_eq!(compile(&shape).0, "length(p) - 1.00000000");
}

#[test]
fn copies_of_wrapped_shapes_compile_alike() {
    let wrapped = sphere()
        .translate(v3(1.0, 2.0, 3.0))
        .rotate_euler(angle(0.1), angle(0.2), angle(0.3))
        .scale(v3(1.0, 2.0, 3.0))
        .unwrap()
        .repeat(v3(1.0, 1.0, 1.0), IVec3::new(0, 0, 0), IVec3::new(1, 1, 1))
        .unwrap()
        .twist(num(3.0))
        .unwrap()
        .bend(num(2.0));
    assert_eq!(compile(&wrapped.clone()), compile(&wrapped));
}
