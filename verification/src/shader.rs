//! The shader text of a tree of shapes.
//!
//! A tree compiles to one expression in a point, and to helper functions that
//! the expression calls. The helpers are appended to a shared sequence in the
//! order of a walk through the tree that visits the children of a node before
//! the node itself. The helper of a boolean is named by its position in that
//! sequence; the helpers of leaves and warps are the same text wherever they
//! are emitted, and the renderer keeps one of each.

use vstd::prelude::*;
use crate::boolean_kind::BooleanKind;
use crate::decimal::{int_text, nat_text};
use crate::error::Error;
use crate::min_function::{kind_of, Kernel};
use crate::scalar::{fixed_div, fixed_text, magnitude, round_div};
use crate::shape::{Shape, Turn};
use crate::text::join;
use crate::vector::{mat3_text, vec3_text, whole_vec3_text, M3, V3};

verus! {

/// An expression and the helper functions emitted so far.
pub struct Compiled {
    pub expr: Seq<char>,
    pub code: Seq<Seq<char>>,
}

/// The name under which the helper of a boolean sees its point.
pub open spec fn local_point() -> Seq<char> {
    "p"@
}

/// The distance of a sphere: the length of the point less the radius.
pub open spec fn sphere_expr(p: Seq<char>, radius: int) -> Seq<char> {
    "length("@ + p + ") - "@ + fixed_text(radius)
}

/// The distance of a plane: the point along the normal, plus the offset.
pub open spec fn plane_expr(p: Seq<char>, normal: V3, d: int) -> Seq<char> {
    "dot("@ + p + ", "@ + vec3_text(normal) + ") + "@ + fixed_text(d)
}

/// The shader function of the distance of a box with half extents `b`.
pub open spec fn box_helper() -> Seq<char> {
    "\nfloat Box( vec3 p, vec3 b ) {\n    vec3 q = abs(p) - b;\n    return length(max(q,0.0)) + min(max(q.x,max(q.y,q.z)),0.0);\n}\n"@
}

/// The distance of a box: the call of its shader function.
pub open spec fn box_expr(p: Seq<char>, half: V3) -> Seq<char> {
    "Box("@ + p + ", "@ + vec3_text(half) + ")"@
}

/// The shader function of the distance of a box with rounded edges.
pub open spec fn round_box_helper() -> Seq<char> {
    "\nfloat RoundBox( vec3 p, vec3 b, float r ) {\n    vec3 q = abs(p) - b;\n    return length(max(q,0.0)) + min(max(q.x,max(q.y,q.z)),0.0) - r;\n}\n"@
}

/// The distance of a round box: the call of its shader function.
pub open spec fn round_box_expr(p: Seq<char>, extent: V3, radius: int) -> Seq<char> {
    "RoundBox("@ + p + ", "@ + vec3_text(extent) + ", "@ + fixed_text(radius) + ")"@
}

/// The shader function of the distance of a cylinder between two ends.
pub open spec fn capped_cylinder_helper() -> Seq<char> {
    "\nfloat CappedCylinder(vec3 p, vec3 a, vec3 b, float r) {\n    vec3  ba = b - a;\n    vec3  pa = p - a;\n    float baba = dot(ba,ba);\n    float paba = dot(pa,ba);\n    float x = length(pa*baba-ba*paba) - r*baba;\n    float y = abs(paba-baba*0.5)-baba*0.5;\n    float x2 = x*x;\n    float y2 = y*y*baba;\n    float d = (max(x, y) < 0.0) ? -min(x2, y2) : (((x > 0.0) ? x2 : 0.0) + ((y > 0.0) ? y2 : 0.0));\n    return sign(d)*sqrt(abs(d))/baba;\n}\n"@
}

/// The distance of a capped cylinder: the call of its shader function.
pub open spec fn capped_cylinder_expr(p: Seq<char>, radius: int, begin: V3, end: V3) -> Seq<
    char,
> {
    "CappedCylinder("@ + p + ", "@ + vec3_text(begin) + ", "@ + vec3_text(end) + ", "@
        + fixed_text(radius) + ")"@
}

/// The distance of a cylinder without bounds: the distance from the z axis
/// less the radius.
pub open spec fn infinite_cylinder_expr(p: Seq<char>, radius: int) -> Seq<char> {
    "length(("@ + p + ").xy) - "@ + fixed_text(radius)
}

/// The shader function of the distance of a cylinder with rounded rims.
pub open spec fn rounded_cylinder_helper() -> Seq<char> {
    "\nfloat RoundedCylinder(vec3 p, float ra, float rb, float h) {\n    vec2 d = vec2(length(p.xy) - 2.0 * ra + rb, abs(p.z) - h);\n    return min(max(d.x, d.y), 0.0) + length(max(d, 0.0)) - rb;\n}\n"@
}

/// The distance of a rounded cylinder: the call of its shader function.
pub open spec fn rounded_cylinder_expr(
    p: Seq<char>,
    main_radius: int,
    rounding_radius: int,
    height: int,
) -> Seq<char> {
    "RoundedCylinder("@ + p + ", "@ + fixed_text(main_radius) + ", "@ + fixed_text(
        rounding_radius,
    ) + ", "@ + fixed_text(height) + ")"@
}

/// The shader function of the distance of a capsule.
pub open spec fn capsule_helper() -> Seq<char> {
    "\nfloat Capsule(vec3 p, vec3 a, vec3 b, float r) {\n    vec3 pa = p - a, ba = b - a;\n    float h = clamp(dot(pa, ba) / dot(ba, ba), 0.0, 1.0 );\n    return length(pa - ba * h) - r;\n}\n"@
}

/// The distance of a capsule: the call of its shader function.
pub open spec fn capsule_expr(p: Seq<char>, radius: int, begin: V3, end: V3) -> Seq<char> {
    "Capsule("@ + p + ", "@ + vec3_text(begin) + ", "@ + vec3_text(end) + ", "@ + fixed_text(
        radius,
    ) + ")"@
}

/// The radius of the circle in the middle of the tube of a torus.
pub open spec fn major_radius(inner: int, outer: int) -> int {
    round_div(inner + outer, 2)
}

/// The radius of the tube of a torus.
pub open spec fn minor_radius(inner: int, outer: int) -> int {
    round_div(outer - inner, 2)
}

/// The shader function of the distance of a whole torus.
pub open spec fn torus_helper() -> Seq<char> {
    "\nfloat Torus(vec3 p, vec2 t) {\n    vec2 q = vec2(length(p.xy) - t.x, p.z);\n    return length(q) - t.y;\n}"@
}

/// The distance of a whole torus: the call of its shader function on the
/// radius of the middle circle and that of the tube.
pub open spec fn torus_expr(p: Seq<char>, inner: int, outer: int) -> Seq<char> {
    "Torus("@ + p + ", vec2("@ + fixed_text(major_radius(inner, outer)) + ", "@ + fixed_text(
        minor_radius(inner, outer),
    ) + "))"@
}

/// The shader function of the distance of a capped torus.
pub open spec fn capped_torus_helper() -> Seq<char> {
    "\nfloat CappedTorus(vec3 p, float ra, float rb, vec2 an) {\n    p.x = abs(p.x);\n    float k = (an.y * p.x > an.x * p.y) ? dot(p.xy, an) : length(p.xy);\n    return sqrt( dot(p, p) + ra * ra - 2.0 * ra * k) - rb;\n}\n"@
}

/// The distance of a capped torus: the call of its shader function on the two
/// radii and on the sine and cosine of the cap angle.
pub open spec fn capped_torus_expr(p: Seq<char>, inner: int, outer: int, cap: Turn) -> Seq<
    char,
> {
    "CappedTorus("@ + p + ", "@ + fixed_text(major_radius(inner, outer)) + ", "@ + fixed_text(
        minor_radius(inner, outer),
    ) + ", vec2("@ + fixed_text(cap.sin) + ", "@ + fixed_text(cap.cos) + "))"@
}

/// The point at which the child of a translation is evaluated.
pub open spec fn translate_point(p: Seq<char>, vector: V3) -> Seq<char> {
    "("@ + p + ") - "@ + vec3_text(vector)
}

/// The point at which the child of a rotation is evaluated.
pub open spec fn rotate_point(p: Seq<char>, matrix: M3) -> Seq<char> {
    mat3_text(matrix) + " * ("@ + p + ")"@
}

/// One over each component of a scale.
pub open spec fn inverse_scale(scale: V3) -> V3 {
    V3 {
        x: fixed_div(100_000_000, scale.x),
        y: fixed_div(100_000_000, scale.y),
        z: fixed_div(100_000_000, scale.z),
    }
}

/// The smallest magnitude among the components of a scale.
pub open spec fn least_magnitude(scale: V3) -> int {
    let x = magnitude(scale.x);
    let y = magnitude(scale.y);
    let z = magnitude(scale.z);
    if x <= y && x <= z {
        x as int
    } else if y <= z {
        y as int
    } else {
        z as int
    }
}

/// The point at which the child of a scale is evaluated.
pub open spec fn scale_point(p: Seq<char>, scale: V3) -> Seq<char> {
    "("@ + p + ") * "@ + vec3_text(inverse_scale(scale))
}

/// The distance of a scaled shape, from the distance of its child: a lower
/// bound of the true distance, and the true distance where the scale is uniform.
pub open spec fn scale_distance(child: Seq<char>, scale: V3) -> Seq<char> {
    "("@ + child + ") * "@ + fixed_text(least_magnitude(scale))
}

/// The point at which the child of a repetition is evaluated: the point folded
/// into the cell of the nearest grid index within the bounds.
pub open spec fn repeat_point(p: Seq<char>, cell: V3, min: V3, max: V3) -> Seq<char> {
    "("@ + p + ") - "@ + vec3_text(cell) + " * clamp(round(("@ + p + ") / "@ + vec3_text(cell)
        + "), "@ + whole_vec3_text(min) + ", "@ + whole_vec3_text(max) + ")"@
}

/// Two pi, in units of `10^-8`.
pub open spec fn full_circle() -> int {
    628318531
}

/// The angle by which a twist turns per unit of height.
pub open spec fn radians_per_height(height_per_rotation: int) -> int {
    fixed_div(full_circle(), height_per_rotation)
}

/// The arc length per radian of a bend.
pub open spec fn bend_scale(distance_for_full_circle: int) -> int {
    fixed_div(distance_for_full_circle, full_circle())
}

/// The shader function that turns a point about z by an angle that grows with
/// its height.
pub open spec fn twist_helper() -> Seq<char> {
    "\nvec3 TwistXY(vec3 p, float rad_per_h) {\n    float a = p.z * rad_per_h;\n    float sin_a = sin(a);\n    float cos_a = cos(a);\n    mat2 rmat = mat2(cos_a, -sin_a, sin_a, cos_a);\n    return vec3(rmat * p.xy, p.z);\n}\n"@
}

/// The point at which the child of a twist is evaluated.
pub open spec fn twist_point(p: Seq<char>, height_per_rotation: int) -> Seq<char> {
    "TwistXY("@ + p + ", "@ + fixed_text(radians_per_height(height_per_rotation)) + ")"@
}

/// The shader function that maps a point to its angle about z as a length,
/// its distance from the axis, and its height.
pub open spec fn bend_helper() -> Seq<char> {
    "\nvec3 BendAroundZ(vec3 p, float y_scale) {\n    float a = atan(p.x, p.y);\n    float r = length(p.xy);\n    return vec3(a * y_scale, r, p.z);\n}\n"@
}

/// The point at which the child of a bend is evaluated.
pub open spec fn bend_point(p: Seq<char>, distance_for_full_circle: int) -> Seq<char> {
    "BendAroundZ("@ + p + ", "@ + fixed_text(bend_scale(distance_for_full_circle)) + ")"@
}

/// The distance of a negation: that of the child with its sign changed.
pub open spec fn negation_expr(child: Seq<char>) -> Seq<char> {
    "-("@ + child + ")"@
}

/// The name of the helper of a blend, without its position.
pub open spec fn blend_stem(kind: BooleanKind) -> Seq<char> {
    match kind {
        BooleanKind::Default => "MinDefault"@,
        BooleanKind::Polynomial => "MinPolynomial"@,
        BooleanKind::CubicPolynomial => "MinCubicPolynomial"@,
        BooleanKind::Root => "MinRoot"@,
        BooleanKind::Exponential => "MinExponential"@,
        BooleanKind::Chamfer => "MinChamfer"@,
        BooleanKind::Stairs => "MinStairs"@,
    }
}

/// The name of the helper of a blend that is emitted as helper number
/// `position`: the position makes the name unlike that of any other helper.
pub open spec fn blend_name(kind: BooleanKind, position: nat) -> Seq<char> {
    blend_stem(kind) + nat_text(position)
}

/// The statements that fold the minimum of the expressions into `m`.
pub open spec fn min_lines(exprs: Seq<Seq<char>>) -> Seq<Seq<char>> {
    Seq::new(exprs.len(), |i: int| "    m = min(m, "@ + exprs[i] + ");"@)
}

/// The statements that take each expression into the minimum `d` and into the
/// sum `res` of the exponentials.
pub open spec fn exp_lines(exprs: Seq<Seq<char>>, k: int) -> Seq<Seq<char>> {
    Seq::new(
        exprs.len(),
        |i: int|
            "    t = "@ + exprs[i] + "; d = min(d, t); res += exp2(-"@ + fixed_text(k)
                + " * t);"@,
    )
}

/// The statements that bind the expressions of two children to `d0` and `d1`.
pub open spec fn bound_pair(first: Seq<char>, second: Seq<char>) -> Seq<char> {
    "    float d0 = "@ + first + ";\n    float d1 = "@ + second + ";\n"@
}

/// The body of the helper of a blend: the statements that compute the kernel
/// on the expressions of the children, with the parameters of the kernel
/// written out. A kernel of two distances reads the first two expressions.
/// The exponential kernel returns the plain minimum where the sum of the
/// exponentials has underflowed to zero.
pub open spec fn blend_body(kernel: Kernel, exprs: Seq<Seq<char>>) -> Seq<char> {
    match kernel {
        Kernel::Default => "    float m = 1e10;\n"@ + join(min_lines(exprs), "\n"@)
            + "\n    return m;"@,
        Kernel::Polynomial { k } => bound_pair(exprs[0], exprs[1]) + "    float k = "@
            + fixed_text(k)
            + ";\n    float h = max(k - abs(d0 - d1), 0.0);\n    return min(d0, d1) - h * h * 0.25 / "@
            + fixed_text(k) + ";"@,
        Kernel::CubicPolynomial { k } => bound_pair(exprs[0], exprs[1]) + "    float k = "@
            + fixed_text(k)
            + ";\n    float h = max(k - abs(d0 - d1), 0.0) / k;\n    return min(d0, d1) - h * h * h * k * (1./6.);"@,
        Kernel::Root { k } => bound_pair(exprs[0], exprs[1])
            + "    float h = d0 - d1;\n    return 0.5 * ((d0 + d1) - sqrt(h *h + "@ + fixed_text(
            k,
        ) + "));"@,
        Kernel::Chamfer { k } => bound_pair(exprs[0], exprs[1])
            + "    return min(min(d0, d1), (d0 - "@ + fixed_text(k) + " + d1) * sqrt(0.5));"@,
        Kernel::Stairs { k, n } => bound_pair(exprs[0], exprs[1]) + "    float k = "@
            + fixed_text(k) + ";\n    float s = k / "@ + int_text(n)
            + ";\n    float u = d1 - k;\n    return min(min(d0, d1), 0.5 * (u + d0 + abs((mod(u - d0 + s, 2. * s)) - s)));"@,
        Kernel::Exponential { k } =>
            "    float t = 0.0;\n    float d = 1e10;\n    float res = 0.0;\n"@ + join(
                exp_lines(exprs, k),
                "\n"@,
            ) + "\n    if (res > 0.0) {\n        return -log2(res) / "@ + fixed_text(k)
                + ";\n    } else {\n        return d;\n    }"@,
    }
}

/// The helper of a blend: a function of the point with the given body.
pub open spec fn blend_helper(name: Seq<char>, body: Seq<char>) -> Seq<char> {
    "\nfloat "@ + name + "(vec3 p) {\n"@ + body + "\n}"@
}

/// Why a kernel cannot blend `n` children, if it cannot: the plain minimum
/// takes any number, the exponential kernel at least two, every other kernel
/// exactly two.
pub open spec fn blend_refusal(kind: BooleanKind, n: nat) -> Option<Error> {
    match kind {
        BooleanKind::Default => None,
        BooleanKind::Exponential => if n < 2 {
            Some(Error::TooFewChildren { got: n as usize })
        } else {
            None
        },
        _ => if n != 2 {
            Some(Error::KernelArity { kind, got: n as usize })
        } else {
            None
        },
    }
}

/// The expression of a blend: the call of its helper at the point.
pub open spec fn blend_expr(name: Seq<char>, p: Seq<char>) -> Seq<char> {
    name + "("@ + p + ")"@
}

/// The expression of a boolean, from that of the blend of its children.
pub open spec fn boolean_expr(blend: Seq<char>, negate: bool) -> Seq<char> {
    if negate {
        "-"@ + blend
    } else {
        blend
    }
}

/// Compiles a tree: the expression of its distance at the point `p`, and the
/// helper functions `code` with those of the tree appended.
pub open spec fn compile(shape: Shape, p: Seq<char>, code: Seq<Seq<char>>) -> Compiled
    decreases shape, 0nat,
{
    match shape {
        Shape::Sphere { radius } => Compiled { expr: sphere_expr(p, radius), code },
        Shape::Plane { normal, d } => Compiled { expr: plane_expr(p, normal, d), code },
        Shape::ExactBox { half } => Compiled {
            expr: box_expr(p, half),
            code: code.push(box_helper()),
        },
        Shape::RoundBox { extent, radius } => Compiled {
            expr: round_box_expr(p, extent, radius),
            code: code.push(round_box_helper()),
        },
        Shape::Cylinder { radius, ends } => match ends {
            Some((begin, end)) => Compiled {
                expr: capped_cylinder_expr(p, radius, begin, end),
                code: code.push(capped_cylinder_helper()),
            },
            None => Compiled { expr: infinite_cylinder_expr(p, radius), code },
        },
        Shape::RoundedCylinder { main_radius, rounding_radius, height } => Compiled {
            expr: rounded_cylinder_expr(p, main_radius, rounding_radius, height),
            code: code.push(rounded_cylinder_helper()),
        },
        Shape::Capsule { radius, begin, end } => Compiled {
            expr: capsule_expr(p, radius, begin, end),
            code: code.push(capsule_helper()),
        },
        Shape::Torus { inner, outer, cap } => match cap {
            Some(turn) => Compiled {
                expr: capped_torus_expr(p, inner, outer, turn),
                code: code.push(capped_torus_helper()),
            },
            None => Compiled {
                expr: torus_expr(p, inner, outer),
                code: code.push(torus_helper()),
            },
        },
        Shape::Translate { child, vector } => compile(*child, translate_point(p, vector), code),
        Shape::Rotate { child, matrix } => compile(*child, rotate_point(p, matrix), code),
        Shape::Scale { child, scale } => {
            let inner = compile(*child, scale_point(p, scale), code);
            Compiled { expr: scale_distance(inner.expr, scale), code: inner.code }
        },
        Shape::Repeat { child, cell, min, max } => compile(
            *child,
            repeat_point(p, cell, min, max),
            code,
        ),
        Shape::Twist { child, height_per_rotation } => {
            let inner = compile(*child, twist_point(p, height_per_rotation), code);
            Compiled { expr: inner.expr, code: inner.code.push(twist_helper()) }
        },
        Shape::Bend { child, distance_for_full_circle } => {
            let inner = compile(*child, bend_point(p, distance_for_full_circle), code);
            Compiled { expr: inner.expr, code: inner.code.push(bend_helper()) }
        },
        Shape::Boolean { children, kernel, negate } => {
            let blend = compile_blend(children, kernel, p, code);
            Compiled { expr: boolean_expr(blend.expr, negate), code: blend.code }
        },
        Shape::Negation { child } => {
            let inner = compile(*child, p, code);
            Compiled { expr: negation_expr(inner.expr), code: inner.code }
        },
    }
}

/// The expressions of several trees, and the helper functions emitted so far.
pub struct CompiledAll {
    pub exprs: Seq<Seq<char>>,
    pub code: Seq<Seq<char>>,
}

/// Compiles the blend of the children by a kernel. The children are compiled
/// first, in order; then one helper is appended, a function of the point that
/// computes the kernel on the expressions of the children. The helper is named
/// by the number of helpers emitted before it, and the expression calls it at `p`.
pub open spec fn compile_blend(
    children: Seq<Shape>,
    kernel: Kernel,
    p: Seq<char>,
    code: Seq<Seq<char>>,
) -> Compiled
    decreases children, 2nat,
{
    let all = compile_all(children, code);
    let name = blend_name(kind_of(kernel), all.code.len());
    Compiled {
        expr: blend_expr(name, p),
        code: all.code.push(blend_helper(name, blend_body(kernel, all.exprs))),
    }
}

/// Compiles the children of a boolean in order, each at the local point: their
/// expressions, and `code` with all their helpers appended.
pub open spec fn compile_all(children: Seq<Shape>, code: Seq<Seq<char>>) -> CompiledAll
    decreases children, 1nat,
{
    if children.len() == 0 {
        CompiledAll { exprs: Seq::empty(), code }
    } else {
        let before = compile_all(children.drop_last(), code);
        let last = compile(children.last(), local_point(), before.code);
        CompiledAll { exprs: before.exprs.push(last.expr), code: last.code }
    }
}

} // verus!
