use sdf_csg::{
    Angle, Boolean, Capsule, ExactBox, IVec3, MinFunction, MinPolynomial, Primitive, Scalar,
    Sphere, Torus, Vec3,
};

fn num(x: f64) -> Scalar {
    Scalar::from_units((x * 1e8).round() as i64).unwrap()
}

fn v3(x: f64, y: f64, z: f64) -> Vec3 {
    Vec3::new(num(x), num(y), num(z))
}

fn union(children: Vec<Primitive>) -> Primitive {
    Primitive::Boolean(Boolean::new_union(children).unwrap())
}

fn smooth(children: Vec<Primitive>) -> Primitive {
    let mut b = Boolean::new_difference(children).unwrap();
    b.set_min_function(MinFunction::Polynomial(MinPolynomial::new(num(0.1)).unwrap())).unwrap();
    Primitive::Boolean(b)
}

fn trees() -> Vec<Primitive> {
    let sphere = Sphere::new(num(1.0)).unwrap();
    let cube = ExactBox::new(v3(1.0, 2.0, 3.0)).unwrap();
    let torus = Torus::new(num(1.0), num(2.0)).unwrap();
    let capsule = Capsule::new(num(0.5), v3(0.0, 0.0, 0.0), v3(1.0, 1.0, 1.0)).unwrap();
    let quarter = Angle::new(num(1.57079633), num(1.0), num(0.0)).unwrap();
    let inner = union(vec![cube.clone(), sphere.translate(v3(1.0, 0.0, 0.0))]);
    let twisted = inner.twist(num(3.0)).unwrap();
    let deep = union(vec![
        twisted.clone(),
        smooth(vec![torus.clone(), capsule.bend(num(2.0))]),
        cube.scale(v3(2.0, 2.0, 2.0)).unwrap(),
        union(vec![inner.clone(), twisted.rotate_euler(quarter, quarter, quarter)]),
    ]);
    let repeated = deep
        .repeat(v3(5.0, 5.0, 5.0), IVec3::new(-2, -2, -2), IVec3::new(2, 2, 2))
        .unwrap();
    vec![sphere, cube, torus, capsule, inner, twisted, deep, repeated]
}

fn defined_name(block: &str) -> Option<&str> {
    let rest = block.strip_prefix("\nfloat Min")?;
    let end = rest.find("(vec3 p) {\n")?;
    Some(&block[7..7 + 3 + end])
}

#[test]
fn compilation_only_appends() {
    let before = vec!["first".to_string(), "second".to_string()];
    for tree in trees() {
        let mut alone = Vec::new();
        tree.expression("p", &mut alone);
        let mut code = before.clone();
        tree.expression("p", &mut code);
        assert_eq!(&code[..2], &before[..]);
        assert_eq!(code.len(), 2 + alone.len());
    }
}

#[test]
fn helpers_do_not_depend_on_the_point() {
    for tree in trees() {
        let mut at_p = Vec::new();
        let mut at_q = Vec::new();
        let p = tree.expression("p", &mut at_p);
        let q = tree.expression("(q).zyx", &mut at_q);
        assert_eq!(at_p, at_q);
        assert_eq!(p.replace("p", "(q).zyx").len() >= q.len(), true);
    }
}

#[test]
fn helpers_of_blends_are_named_by_their_position() {
    for start in [0usize, 3, 10] {
        for tree in trees() {
            let mut code: Vec<String> = (0..start).map(|i| format!("block {}", i)).collect();
            tree.expression("p", &mut code);
            for (position, block) in code.iter().enumerate().skip(start) {
                if let Some(name) = defined_name(block) {
                    let digits = name.trim_start_matches(|c: char| c.is_ascii_alphabetic());
                    assert_eq!(digits, position.to_string(), "{}", block);
                }
            }
        }
    }
}

#[test]
fn no_two_helpers_of_blends_share_a_name() {
    for tree in trees() {
        let mut code = Vec::new();
        tree.expression("p", &mut code);
        let mut names: Vec<&str> = code.iter().filter_map(|b| defined_name(b)).collect();
        let count = names.len();
        names.sort();
        names.dedup();
        assert_eq!(names.len(), count);
    }
    let deep = &trees()[6];
    let mut code = Vec::new();
    deep.expression("p", &mut code);
    assert_eq!(code.iter().filter_map(|b| defined_name(b)).count(), 6);
}

#[test]
fn compilation_is_repeatable() {
    for tree in trees() {
        let mut first = Vec::new();
        let mut second = Vec::new();
        assert_eq!(tree.expression("p", &mut first), tree.expression("p", &mut second));
        assert_eq!(first, second);
    }
}

#[test]
fn deep_tree_compiles_children_first() {
    let deep = &trees()[6];
    let mut code = Vec::new();
    let expr = deep.expression("p", &mut code);
    assert_eq!(expr, format!("MinDefault{}(p)", code.len() - 1));
    let last = &code[code.len() - 1];
    for (position, block) in code.iter().enumerate() {
        if let Some(name) = defined_name(block) {
            for later in code.iter().skip(position + 1) {
                assert!(!block.contains(defined_name(later).unwrap_or("float map")));
            }
            if position + 1 < code.len() && last.contains(&format!("{}(p)", name)) {
                assert!(position < code.len() - 1);
            }
        }
    }
    assert!(last.contains("MinPolynomial"));
    assert!(last.contains("TwistXY(p, 2.09439510)"));
}
