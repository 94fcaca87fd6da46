use sdf_csg::renderer::assemble_shader;
use sdf_csg::{
    generate_renderer_shader, Boolean, ExactBox, IVec3, Primitive, Scalar, Sphere, Vec3,
};

const BOX_HELPER: &str = "\nfloat Box( vec3 p, vec3 b ) {\n    vec3 q = abs(p) - b;\n    return length(max(q,0.0)) + min(max(q.x,max(q.y,q.z)),0.0);\n}\n";
const MAP_HEAD: &str = "\nuniform mat4 iWorldTransform;\n\nfloat map(in vec3 p) {\n    p = (vec4(p, 1) * iWorldTransform).xyz;\n    return ";

fn num(x: f64) -> Scalar {
    Scalar::from_units((x * 1e8).round() as i64).unwrap()
}

fn v3(x: f64, y: f64, z: f64) -> Vec3 {
    Vec3::new(num(x), num(y), num(z))
}

fn cube(size: f64) -> Primitive {
    ExactBox::new(v3(size, size, size)).unwrap()
}

fn blocks(texts: &[&str]) -> Vec<String> {
    texts.iter().map(|s| s.to_string()).collect()
}

#[test]
fn shader_of_a_sphere() {
    let sphere = Sphere::new(num(1.0)).unwrap();
    assert_eq!(
        generate_renderer_shader(&sphere, "void main() {}"),
        format!("\n{}length(p) - 1.00000000;\n}}\nvoid main() {{}}", MAP_HEAD)
    );
}

#[test]
fn shader_keeps_one_helper_for_two_boxes() {
    let union = Boolean::new_union(vec![cube(1.0), cube(2.0)]).unwrap();
    let tree = Primitive::Boolean(union);
    let mut code = Vec::new();
    let expr = tree.expression("p", &mut code);
    assert_eq!(expr, "MinDefault2(p)");
    assert_eq!(code.len(), 3);
    assert_eq!(code[0], code[1]);
    let helper = "\nfloat MinDefault2(vec3 p) {\n    float m = 1e10;\n    m = min(m, Box(p, vec3(0.50000000, 0.50000000, 0.50000000)));\n    m = min(m, Box(p, vec3(1.00000000, 1.00000000, 1.00000000)));\n    return m;\n}";
    assert_eq!(
        generate_renderer_shader(&tree, "MAIN"),
        format!("{}{}\n{}MinDefault2(p);\n}}\nMAIN", BOX_HELPER, helper, MAP_HEAD)
    );
}

#[test]
fn shader_keeps_the_helper_of_every_boolean() {
    let first = Boolean::new_union(vec![cube(1.0), cube(2.0)]).unwrap();
    let second = Boolean::new_union(vec![cube(3.0), Primitive::Boolean(first)]).unwrap();
    let shader = generate_renderer_shader(&Primitive::Boolean(second), "");
    assert_eq!(shader.matches("float Box(").count(), 1);
    assert_eq!(shader.matches("float MinDefault3(vec3 p)").count(), 1);
    assert_eq!(shader.matches("float MinDefault4(vec3 p)").count(), 1);
    assert!(shader.find("float Box(").unwrap() < shader.find("float MinDefault3(").unwrap());
    assert!(shader.find("float MinDefault3(").unwrap() < shader.find("float MinDefault4(").unwrap());
    assert!(shader.find("float MinDefault4(").unwrap() < shader.find("float map(").unwrap());
    assert!(shader.ends_with("    return MinDefault4(p);\n}\n"));
}

#[test]
fn assembly_keeps_the_first_of_equal_blocks_in_order() {
    let code = blocks(&["b;", "a;", "b;", "c;", "a;", "a;", "d;"]);
    assert_eq!(
        assemble_shader(&code, "e", "T"),
        format!("b;a;c;d;\n{}e;\n}}\nT", MAP_HEAD)
    );
}

#[test]
fn assembly_of_no_helpers() {
    assert_eq!(assemble_shader(&Vec::new(), "0.0", ""), format!("\n{}0.0;\n}}\n", MAP_HEAD));
}

#[test]
fn assembly_of_blocks_that_are_all_equal() {
    let code = blocks(&["x", "x", "x"]);
    assert_eq!(assemble_shader(&code, "e", "T"), format!("x\n{}e;\n}}\nT", MAP_HEAD));
}

#[test]
fn shader_of_a_repeated_box_under_a_twist() {
    let tree = cube(1.0)
        .repeat(v3(2.0, 2.0, 2.0), IVec3::new(-1, -1, -1), IVec3::new(1, 1, 1))
        .unwrap()
        .twist(num(4.0))
        .unwrap();
    let shader = generate_renderer_shader(&tree, "MAIN");
    assert!(shader.starts_with(BOX_HELPER));
    assert_eq!(shader.matches("vec3 TwistXY(").count(), 1);
    assert!(shader.contains(
        "    return Box((TwistXY(p, 1.57079633)) - vec3(2.00000000, 2.00000000, 2.00000000) * clamp(round((TwistXY(p, 1.57079633)) / vec3(2.00000000, 2.00000000, 2.00000000)), vec3(-1.00000000, -1.00000000, -1.00000000), vec3(1.00000000, 1.00000000, 1.00000000)), vec3(0.50000000, 0.50000000, 0.50000000));\n}\nMAIN"
    ));
}
