use sdf_csg::{
    Angle, Capsule, Cylinder, Error, ExactBox, Plane, Primitive, RoundBox, RoundedCylinder, Scalar,
    Sphere, Torus, Vec3,
};

const BOX_HELPER: &str = "\nfloat Box( vec3 p, vec3 b ) {\n    vec3 q = abs(p) - b;\n    return length(max(q,0.0)) + min(max(q.x,max(q.y,q.z)),0.0);\n}\n";
const ROUND_BOX_HELPER: &str = "\nfloat RoundBox( vec3 p, vec3 b, float r ) {\n    vec3 q = abs(p) - b;\n    return length(max(q,0.0)) + min(max(q.x,max(q.y,q.z)),0.0) - r;\n}\n";
const CAPSULE_HELPER: &str = "\nfloat Capsule(vec3 p, vec3 a, vec3 b, float r) {\n    vec3 pa = p - a, ba = b - a;\n    float h = clamp(dot(pa, ba) / dot(ba, ba), 0.0, 1.0 );\n    return length(pa - ba * h) - r;\n}\n";
const ROUNDED_CYLINDER_HELPER: &str = "\nfloat RoundedCylinder(vec3 p, float ra, float rb, float h) {\n    vec2 d = vec2(length(p.xy) - 2.0 * ra + rb, abs(p.z) - h);\n    return min(max(d.x, d.y), 0.0) + length(max(d, 0.0)) - rb;\n}\n";
const TORUS_HELPER: &str = "\nfloat Torus(vec3 p, vec2 t) {\n    vec2 q = vec2(length(p.xy) - t.x, p.z);\n    return length(q) - t.y;\n}";
const CAPPED_TORUS_HELPER: &str = "\nfloat CappedTorus(vec3 p, float ra, float rb, vec2 an) {\n    p.x = abs(p.x);\n    float k = (an.y * p.x > an.x * p.y) ? dot(p.xy, an) : length(p.xy);\n    return sqrt( dot(p, p) + ra * ra - 2.0 * ra * k) - rb;\n}\n";

fn num(x: f64) -> Scalar {
    Scalar::from_units((x * 1e8).round() as i64).unwrap()
}

fn v3(x: f64, y: f64, z: f64) -> Vec3 {
    Vec3::new(num(x), num(y), num(z))
}

fn angle(radians: f64) -> Angle {
    Angle::new(num(radians), num(radians.sin()), num(radians.cos())).unwrap()
}

fn compile(shape: &Primitive) -> (String, Vec<String>) {
    let mut code = Vec::new();
    let expr = shape.expression("p", &mut code);
    (expr, code)
}

fn failure(r: Result<Primitive, Error>) -> Error {
    match r {
        Ok(_) => panic!("the shape was accepted"),
        Err(e) => e,
    }
}

#[test]
fn sphere_expression_is_length_minus_radius() {
    let sphere: Primitive = Sphere::new(num(1.0)).unwrap();
    let (expr, code) = compile(&sphere);
    assert_eq!(expr, "length(p) - 1.00000000");
    assert!(code.is_empty());
}

#[test]
fn sphere_keeps_its_radius_and_the_point() {
    let sphere = Sphere::new(num(0.25)).unwrap();
    let mut code = vec!["kept".to_string()];
    assert_eq!(sphere.expression("q.xyz", &mut code), "length(q.xyz) - 0.25000000");
    assert_eq!(code, vec!["kept".to_string()]);
    match sphere {
        Primitive::Sphere(s) => assert_eq!(s.radius(), num(0.25)),
        _ => panic!("not a sphere"),
    }
}

#[test]
fn sphere_radius_has_to_be_positive() {
    assert_eq!(failure(Sphere::new(num(0.0))), Error::NonPositiveRadius { radius: num(0.0) });
    assert_eq!(failure(Sphere::new(num(-1.0))), Error::NonPositiveRadius { radius: num(-1.0) });
    assert!(Sphere::new(Scalar::from_units(1).unwrap()).is_ok());
}

#[test]
fn plane_normal_is_brought_to_length_one() {
    let plane = Plane::new(v3(0.0, 0.0, 2.0), num(0.5)).unwrap();
    let (expr, code) = compile(&plane);
    assert_eq!(expr, "dot(p, vec3(0.00000000, 0.00000000, 1.00000000)) + 0.50000000");
    assert!(code.is_empty());
    let slanted = Plane::new(v3(3.0, -4.0, 0.0), num(-1.0)).unwrap();
    assert_eq!(
        compile(&slanted).0,
        "dot(p, vec3(0.60000000, -0.80000000, 0.00000000)) + -1.00000000"
    );
    let diagonal = Plane::new(v3(1.0, 1.0, 1.0), num(0.0)).unwrap();
    assert_eq!(
        compile(&diagonal).0,
        "dot(p, vec3(0.57735027, 0.57735027, 0.57735027)) + 0.00000000"
    );
}

#[test]
fn plane_of_the_smallest_and_largest_normal() {
    let tiny = Plane::new(Vec3::new(Scalar::from_units(1).unwrap(), num(0.0), num(0.0)), num(0.0));
    match tiny.unwrap() {
        Primitive::Plane(p) => {
            assert_eq!(p.normal(), v3(1.0, 0.0, 0.0));
            assert_eq!(p.d(), num(0.0));
        },
        _ => panic!("not a plane"),
    }
    let huge = Plane::new(v3(1e10, -1e10, 1e10), num(0.0)).unwrap();
    assert_eq!(
        compile(&huge).0,
        "dot(p, vec3(0.57735027, -0.57735027, 0.57735027)) + 0.00000000"
    );
}

#[test]
fn plane_normal_is_of_length_one_whatever_its_length() {
    let tiny = Scalar::from_units(1).unwrap();
    let shortest = Plane::new(Vec3::new(tiny, tiny, tiny), num(0.0)).unwrap();
    assert_eq!(
        compile(&shortest).0,
        "dot(p, vec3(0.57735027, 0.57735027, 0.57735027)) + 0.00000000"
    );
    let normals = [
        v3(1e-8, 1e-8, 1e-8),
        v3(1e-8, 2e-8, -2e-8),
        v3(1e-4, 1e-4, 0.0),
        v3(0.3, -0.2, 0.1),
        v3(1e10, 1.0, 1e-8),
        v3(123.456, -7.0, 1e10),
        v3(-1e10, -1e10, -1e10),
    ];
    for normal in normals {
        let floats = [normal.x, normal.y, normal.z].map(|s| s.units() as f64);
        let length = floats.iter().map(|c| c * c).sum::<f64>().sqrt();
        match Plane::new(normal, num(0.0)).unwrap() {
            Primitive::Plane(p) => {
                let stored = [p.normal().x, p.normal().y, p.normal().z].map(|s| s.units());
                let squares: i128 = stored.iter().map(|u| (*u as i128) * (*u as i128)).sum();
                assert!((squares - 10_000_000_000_000_000).abs() <= 1_000_000_000, "{:?}", stored);
                for i in 0..3 {
                    let exact = floats[i] / length * 1e8;
                    assert!((stored[i] as f64 - exact).abs() <= 1.0, "{:?}", stored);
                }
            },
            _ => panic!("not a plane"),
        }
    }
}

#[test]
fn plane_normal_must_not_be_zero() {
    assert_eq!(failure(Plane::new(v3(0.0, 0.0, 0.0), num(1.0))), Error::ZeroNormal);
}

#[test]
fn exact_box_holds_half_its_size() {
    let b = ExactBox::new(v3(2.0, 4.0, 6.0)).unwrap();
    let (expr, code) = compile(&b);
    assert_eq!(expr, "Box(p, vec3(1.00000000, 2.00000000, 3.00000000))");
    assert_eq!(code, vec![BOX_HELPER.to_string()]);
    match b {
        Primitive::ExactBox(b) => assert_eq!(b.half_size(), v3(1.0, 2.0, 3.0)),
        _ => panic!("not a box"),
    }
}

#[test]
fn box_extents_have_to_be_positive() {
    let flat = v3(1.0, 0.0, 1.0);
    assert_eq!(failure(ExactBox::new(flat)), Error::NonPositiveSize { size: flat });
    let inverted = v3(1.0, 1.0, -2.0);
    assert_eq!(failure(ExactBox::new(inverted)), Error::NonPositiveSize { size: inverted });
    assert_eq!(failure(RoundBox::new(flat, num(0.1))), Error::NonPositiveSize { size: flat });
    assert_eq!(failure(RoundBox::new(flat, num(-0.1))), Error::NonPositiveSize { size: flat });
}

#[test]
fn round_box_takes_the_rounding_off_its_extents() {
    let b = RoundBox::new(v3(2.0, 4.0, 6.0), num(0.5)).unwrap();
    let (expr, code) = compile(&b);
    assert_eq!(expr, "RoundBox(p, vec3(0.50000000, 1.50000000, 2.50000000), 0.50000000)");
    assert_eq!(code, vec![ROUND_BOX_HELPER.to_string()]);
    match b {
        Primitive::RoundBox(b) => {
            assert_eq!(b.extent(), v3(0.5, 1.5, 2.5));
            assert_eq!(b.radius(), num(0.5));
        },
        _ => panic!("not a round box"),
    }
}

#[test]
fn round_box_radius_must_not_be_negative() {
    assert_eq!(
        failure(RoundBox::new(v3(1.0, 1.0, 1.0), num(-0.5))),
        Error::NegativeRadius { radius: num(-0.5) }
    );
    assert!(RoundBox::new(v3(1.0, 1.0, 1.0), num(0.0)).is_ok());
    assert!(RoundBox::new(v3(1.0, 1.0, 1.0), num(5.0)).is_ok());
}

#[test]
fn round_box_without_rounding_has_the_extents_of_the_exact_box() {
    for size in [v3(2.0, 4.0, 6.0), v3(0.3, 0.7, 1.1), v3(1e-8, 3e-8, 5e-8)] {
        let exact = match ExactBox::new(size).unwrap() {
            Primitive::ExactBox(b) => b.half_size(),
            _ => panic!("not a box"),
        };
        let round = match RoundBox::new(size, num(0.0)).unwrap() {
            Primitive::RoundBox(b) => (b.extent(), b.radius()),
            _ => panic!("not a round box"),
        };
        assert_eq!(round, (exact, num(0.0)));
    }
}

#[test]
fn infinite_cylinder_needs_no_helper() {
    let c = Cylinder::new_infinite(num(1.5)).unwrap();
    let (expr, code) = compile(&c);
    assert_eq!(expr, "length((p).xy) - 1.50000000");
    assert!(code.is_empty());
    match c {
        Primitive::Cylinder(c) => {
            assert_eq!(c.radius(), num(1.5));
            assert_eq!(c.bounds(), None);
        },
        _ => panic!("not a cylinder"),
    }
}

#[test]
fn capped_cylinder_runs_between_its_ends() {
    let c = Cylinder::new(num(0.5), v3(0.0, 0.0, -1.0), v3(0.0, 0.0, 1.0)).unwrap();
    let (expr, code) = compile(&c);
    assert_eq!(
        expr,
        "CappedCylinder(p, vec3(0.00000000, 0.00000000, -1.00000000), vec3(0.00000000, 0.00000000, 1.00000000), 0.50000000)"
    );
    assert_eq!(code.len(), 1);
    assert!(code[0].starts_with("\nfloat CappedCylinder(vec3 p, vec3 a, vec3 b, float r) {\n"));
    assert!(code[0].ends_with("    return sign(d)*sqrt(abs(d))/baba;\n}\n"));
    match c {
        Primitive::Cylinder(c) => {
            assert_eq!(c.bounds(), Some((v3(0.0, 0.0, -1.0), v3(0.0, 0.0, 1.0))))
        },
        _ => panic!("not a cylinder"),
    }
}

#[test]
fn cylinder_is_validated() {
    assert_eq!(
        failure(Cylinder::new_infinite(num(0.0))),
        Error::NonPositiveRadius { radius: num(0.0) }
    );
    let end = v3(1.0, 2.0, 3.0);
    assert_eq!(
        failure(Cylinder::new(num(-1.0), end, end)),
        Error::NonPositiveRadius { radius: num(-1.0) }
    );
    assert_eq!(failure(Cylinder::new(num(1.0), end, end)), Error::ZeroHeight);
    assert!(Cylinder::new(num(1.0), end, v3(1.0, 2.0, 3.00000001)).is_ok());
}

#[test]
fn rounded_cylinder_expression() {
    let c = RoundedCylinder::new(num(1.0), num(0.25), num(2.0)).unwrap();
    let (expr, code) = compile(&c);
    assert_eq!(expr, "RoundedCylinder(p, 1.00000000, 0.25000000, 2.00000000)");
    assert_eq!(code, vec![ROUNDED_CYLINDER_HELPER.to_string()]);
    match c {
        Primitive::RoundedCylinder(c) => {
            assert_eq!(c.main_radius(), num(1.0));
            assert_eq!(c.rounding_radius(), num(0.25));
            assert_eq!(c.height(), num(2.0));
        },
        _ => panic!("not a rounded cylinder"),
    }
}

#[test]
fn rounded_cylinder_reports_the_first_bad_parameter() {
    assert_eq!(
        failure(RoundedCylinder::new(num(0.0), num(-1.0), num(-1.0))),
        Error::NonPositiveRadius { radius: num(0.0) }
    );
    assert_eq!(
        failure(RoundedCylinder::new(num(1.0), num(-1.0), num(-2.0))),
        Error::NegativeRadius { radius: num(-1.0) }
    );
    assert_eq!(
        failure(RoundedCylinder::new(num(1.0), num(0.0), num(-2.0))),
        Error::NegativeHeight { height: num(-2.0) }
    );
    assert!(RoundedCylinder::new(num(1.0), num(0.0), num(0.0)).is_ok());
}

#[test]
fn capsule_expression() {
    let c = Capsule::new(num(0.5), v3(0.0, 0.0, 0.0), v3(0.0, 1.0, 0.0)).unwrap();
    let (expr, code) = compile(&c);
    assert_eq!(
        expr,
        "Capsule(p, vec3(0.00000000, 0.00000000, 0.00000000), vec3(0.00000000, 1.00000000, 0.00000000), 0.50000000)"
    );
    assert_eq!(code, vec![CAPSULE_HELPER.to_string()]);
    match c {
        Primitive::Capsule(c) => {
            assert_eq!(c.radius(), num(0.5));
            assert_eq!(c.begin(), v3(0.0, 0.0, 0.0));
            assert_eq!(c.end(), v3(0.0, 1.0, 0.0));
        },
        _ => panic!("not a capsule"),
    }
}

#[test]
fn capsule_radius_has_to_be_positive() {
    let o = v3(0.0, 0.0, 0.0);
    assert_eq!(failure(Capsule::new(num(0.0), o, o)), Error::NonPositiveRadius { radius: num(0.0) });
    assert!(Capsule::new(num(0.1), o, o).is_ok());
}

#[test]
fn torus_is_given_by_its_middle_circle_and_tube() {
    let t = Torus::new(num(1.0), num(3.0)).unwrap();
    let (expr, code) = compile(&t);
    assert_eq!(expr, "Torus(p, vec2(2.00000000, 1.00000000))");
    assert_eq!(code, vec![TORUS_HELPER.to_string()]);
    match t {
        Primitive::Torus(t) => {
            assert_eq!(t.inner(), num(1.0));
            assert_eq!(t.outer(), num(3.0));
            assert_eq!(t.cap_angle(), None);
            assert_eq!(t.major_radius(), num(2.0));
            assert_eq!(t.minor_radius(), num(1.0));
        },
        _ => panic!("not a torus"),
    }
}

#[test]
fn torus_radii_round_ties_to_even() {
    let inner = Scalar::from_units(0).unwrap();
    let t = Torus::new(inner, Scalar::from_units(3).unwrap()).unwrap();
    assert_eq!(compile(&t).0, "Torus(p, vec2(0.00000002, 0.00000002))");
    let negative = Torus::new(num(-1.0), num(0.5)).unwrap();
    assert_eq!(compile(&negative).0, "Torus(p, vec2(-0.25000000, 0.75000000))");
}

#[test]
fn capped_torus_carries_sine_and_cosine_of_its_cap() {
    let t = Torus::new_capped(num(1.0), num(3.0), angle(std::f64::consts::FRAC_PI_2)).unwrap();
    let (expr, code) = compile(&t);
    assert_eq!(expr, "CappedTorus(p, 2.00000000, 1.00000000, vec2(1.00000000, 0.00000000))");
    assert_eq!(code, vec![CAPPED_TORUS_HELPER.to_string()]);
    let sixth = Torus::new_capped(num(1.0), num(3.0), angle(std::f64::consts::FRAC_PI_6)).unwrap();
    assert_eq!(
        compile(&sixth).0,
        "CappedTorus(p, 2.00000000, 1.00000000, vec2(0.50000000, 0.86602540))"
    );
}

#[test]
fn torus_reports_the_first_bad_parameter() {
    assert_eq!(
        failure(Torus::new(num(2.0), num(2.0))),
        Error::InnerNotSmaller { inner: num(2.0), outer: num(2.0) }
    );
    assert_eq!(
        failure(Torus::new(num(1.0), num(-2.0))),
        Error::InnerNotSmaller { inner: num(1.0), outer: num(-2.0) }
    );
    assert_eq!(
        failure(Torus::new(num(-2.0), num(-1.0))),
        Error::NonPositiveOuter { outer: num(-1.0) }
    );
    assert_eq!(
        failure(Torus::new(num(-2.0), num(0.0))),
        Error::NonPositiveOuter { outer: num(0.0) }
    );
    let negative = angle(-0.5);
    assert_eq!(
        failure(Torus::new_capped(num(1.0), num(2.0), negative)),
        Error::NegativeCapAngle { angle: negative }
    );
    let wide = angle(3.2);
    assert_eq!(
        failure(Torus::new_capped(num(1.0), num(2.0), wide)),
        Error::CapAngleTooLarge { angle: wide }
    );
    assert_eq!(
        failure(Torus::new_capped(num(2.0), num(1.0), wide)),
        Error::InnerNotSmaller { inner: num(2.0), outer: num(1.0) }
    );
}

#[test]
fn cap_angle_may_be_zero_or_pi() {
    assert!(Torus::new_capped(num(1.0), num(2.0), angle(0.0)).is_ok());
    let pi = Angle::new(Scalar::from_units(314_159_265).unwrap(), num(0.0), num(-1.0)).unwrap();
    assert!(Torus::new_capped(num(1.0), num(2.0), pi).is_ok());
    let beyond = Angle::new(Scalar::from_units(314_159_266).unwrap(), num(0.0), num(-1.0)).unwrap();
    assert!(Torus::new_capped(num(1.0), num(2.0), beyond).is_err());
}

#[test]
fn angles_lie_on_the_unit_circle() {
    let a = Angle::new(num(0.5), num(0.6), num(0.8)).unwrap();
    assert_eq!(a.radians(), num(0.5));
    assert_eq!(a.sin(), num(0.6));
    assert_eq!(a.cos(), num(0.8));
    assert_eq!(
        Angle::new(num(0.0), num(1.0), num(1.0)),
        Err(Error::NotOnUnitCircle { sin: num(1.0), cos: num(1.0) })
    );
    assert_eq!(
        Angle::new(num(0.0), num(0.0), num(0.0)),
        Err(Error::NotOnUnitCircle { sin: num(0.0), cos: num(0.0) })
    );
    assert!(Angle::new(num(0.0), num(0.0), num(1.0000004)).is_ok());
    assert!(Angle::new(num(0.0), num(0.0), num(1.000001)).is_err());
    assert!(Angle::new(num(0.0), num(0.0), num(0.9999996)).is_ok());
    assert!(Angle::new(num(0.0), num(0.0), num(0.999999)).is_err());
    assert!(Angle::new(num(0.0), num(1e10), num(1e10)).is_err());
}

#[test]
fn a_copy_compiles_to_the_same_text() {
    let shapes = vec![
        Sphere::new(num(1.0)).unwrap(),
        Plane::new(v3(0.0, 1.0, 0.0), num(0.0)).unwrap(),
        ExactBox::new(v3(1.0, 2.0, 3.0)).unwrap(),
        RoundBox::new(v3(1.0, 2.0, 3.0), num(0.1)).unwrap(),
        Cylinder::new(num(1.0), v3(0.0, 0.0, 0.0), v3(1.0, 0.0, 0.0)).unwrap(),
        RoundedCylinder::new(num(1.0), num(0.1), num(1.0)).unwrap(),
        Capsule::new(num(1.0), v3(0.0, 0.0, 0.0), v3(1.0, 0.0, 0.0)).unwrap(),
        Torus::new_capped(num(1.0), num(2.0), angle(1.0)).unwrap(),
    ];
    for shape in shapes {
        assert_eq!(compile(&shape.clone()), compile(&shape));
    }
}
