//! Moving, turning and scaling a shape.

use vstd::prelude::*;
use crate::angle::{lemma_unit_circle_bounds, Angle};
use crate::error::Error;
use crate::primitive::{compiled, shape_of, Primitive};
use crate::scalar::{
    div_round, fixed_mul, lemma_round_div_bound, lemma_round_div_nat_limit, magnitude, Scalar,
};
use crate::shader::{compile, inverse_scale, least_magnitude};
use crate::shape::{Shape, Turn};
use crate::vector::{Mat3, Vec3, M3, V3};

verus! {

/// The matrix of a turn by three Euler angles. It is the product
/// `Rx(pitch) * Ry(yaw) * Rz(roll)` of the rotations about the x axis by the
/// pitch, about the y axis by the yaw and about the z axis by the roll. A point
/// is multiplied by it before the child is evaluated, so the child itself is
/// turned by its transpose: first about x against the pitch, then about y
/// against the yaw, then about z against the roll.
pub open spec fn euler_matrix(roll: Turn, pitch: Turn, yaw: Turn) -> M3 {
    let sr = roll.sin;
    let cr = roll.cos;
    let sp = pitch.sin;
    let cp = pitch.cos;
    let sy = yaw.sin;
    let cy = yaw.cos;
    M3 {
        c0: V3 {
            x: fixed_mul(cy, cr),
            y: fixed_mul(cp, sr) + fixed_mul(fixed_mul(sp, sy), cr),
            z: fixed_mul(sp, sr) - fixed_mul(fixed_mul(cp, sy), cr),
        },
        c1: V3 {
            x: -fixed_mul(cy, sr),
            y: fixed_mul(cp, cr) - fixed_mul(fixed_mul(sp, sy), sr),
            z: fixed_mul(sp, cr) + fixed_mul(fixed_mul(cp, sy), sr),
        },
        c2: V3 { x: sy, y: -fixed_mul(sp, cy), z: fixed_mul(cp, cy) },
    }
}

/// The product of two small unit counts.
fn times(a: i128, b: i128) -> (c: i128)
    requires
        -200_000_000 <= a <= 200_000_000,
        -200_000_000 <= b <= 200_000_000,
    ensures
        c == fixed_mul(a as int, b as int),
        -400_000_000 <= c <= 400_000_000,
{
    assert(-40_000_000_000_000_000 <= a * b <= 40_000_000_000_000_000) by (nonlinear_arith)
        requires
            -200_000_000 <= a <= 200_000_000,
            -200_000_000 <= b <= 200_000_000,
    ;
    proof {
        lemma_round_div_nat_limit(magnitude(a * b), 100_000_000, 400_000_000);
    }
    div_round(a * b, 100_000_000)
}

/// A shape moved by a vector: the child is evaluated at the point less the vector.
#[derive(Debug)]
pub struct Translate {
    primitive: Box<Primitive>,
    vector: Vec3,
}

/// A shape turned about the origin: the child is evaluated at the point
/// multiplied by a matrix.
#[derive(Debug)]
pub struct Rotate {
    primitive: Box<Primitive>,
    matrix: Mat3,
}

/// A shape scaled along the axes: the child is evaluated at the point divided
/// by the scale, and its distance multiplied by the smallest magnitude of the
/// scale. Under a uniform scale that is the exact distance; otherwise it never
/// exceeds it.
#[derive(Debug)]
pub struct Scale {
    primitive: Box<Primitive>,
    scale: Vec3,
}

impl View for Translate {
    type V = Shape;

    closed spec fn view(&self) -> Shape
        decreases self,
    {
        Shape::Translate { child: Box::new((*self.primitive).view()), vector: self.vector@ }
    }
}

impl View for Rotate {
    type V = Shape;

    closed spec fn view(&self) -> Shape
        decreases self,
    {
        Shape::Rotate { child: Box::new((*self.primitive).view()), matrix: self.matrix@ }
    }
}

impl View for Scale {
    type V = Shape;

    closed spec fn view(&self) -> Shape
        decreases self,
    {
        Shape::Scale { child: Box::new((*self.primitive).view()), scale: self.scale@ }
    }
}

impl Translate {
    /// The shape `primitive` moved by `vector`.
    pub fn new(primitive: Primitive, vector: Vec3) -> (r: Translate)
        ensures
            r@ == (Shape::Translate { child: Box::new(primitive@), vector: vector@ }),
    {
        Translate { primitive: Box::new(primitive), vector }
    }

    /// The shape that is moved.
    pub fn primitive(&self) -> (child: &Primitive)
        ensures
            self@ is Translate,
            self@->Translate_child == Box::new(child@),
    {
        &*self.primitive
    }

    /// The vector by which the shape is moved.
    pub fn vector(&self) -> (vector: Vec3)
        ensures
            self@ is Translate,
            self@->Translate_vector == vector@,
    {
        self.vector
    }

    /// The expression of the child at the point `p` less the vector.
    pub fn expression(&self, p: &str, shared_code: &mut Vec<String>) -> (expr: String)
        ensures
            compiled(expr, *final(shared_code)) == compile(
                self@,
                p@,
                old(shared_code).deep_view(),
            ),
        decreases self,
    {
        let mut point = String::from_str("(");
        point.append(p);
        point.append(") - ");
        self.vector.append_to(&mut point);
        self.primitive.expression(point.as_str(), shared_code)
    }
}

impl Clone for Translate {
    fn clone(&self) -> (copy: Self)
        ensures
            copy@ == self@,
        decreases self,
    {
        Translate { primitive: Box::new((*self.primitive).clone()), vector: self.vector }
    }
}

impl Rotate {
    /// The shape `primitive` under the turn of the three Euler angles `r`
    /// (roll, about z), `p` (pitch, about x) and `y` (yaw, about y).
    pub fn from_euler(primitive: Primitive, r: Angle, p: Angle, y: Angle) -> (rotate: Rotate)
        ensures
            rotate@ == (Shape::Rotate {
                child: Box::new(primitive@),
                matrix: euler_matrix(r@, p@, y@),
            }),
    {
        let sr: i128 = r.sin().units() as i128;
        let cr: i128 = r.cos().units() as i128;
        let sp: i128 = p.sin().units() as i128;
        let cp: i128 = p.cos().units() as i128;
        let sy: i128 = y.sin().units() as i128;
        let cy: i128 = y.cos().units() as i128;
        proof {
            lemma_unit_circle_bounds(r@.sin, r@.cos);
            lemma_unit_circle_bounds(p@.sin, p@.cos);
            lemma_unit_circle_bounds(y@.sin, y@.cos);
        }
        let sp_sy = times(sp, sy);
        let cp_sy = times(cp, sy);
        assert(-100_000_200 <= sp_sy <= 100_000_200 && -100_000_200 <= cp_sy <= 100_000_200) by {
            assert(-10_000_010_000_002_500 <= sp * sy <= 10_000_010_000_002_500)
                by (nonlinear_arith)
                requires
                    -100_000_050 <= sp <= 100_000_050,
                    -100_000_050 <= sy <= 100_000_050,
            ;
            assert(-10_000_010_000_002_500 <= cp * sy <= 10_000_010_000_002_500)
                by (nonlinear_arith)
                requires
                    -100_000_050 <= cp <= 100_000_050,
                    -100_000_050 <= sy <= 100_000_050,
            ;
            lemma_round_div_nat_limit(magnitude(sp * sy), 100_000_000, 100_000_200);
            lemma_round_div_nat_limit(magnitude(cp * sy), 100_000_000, 100_000_200);
        }
        let matrix = Mat3 {
            c0: Vec3 {
                x: Scalar::from_wide(times(cy, cr)),
                y: Scalar::from_wide(times(cp, sr) + times(sp_sy, cr)),
                z: Scalar::from_wide(times(sp, sr) - times(cp_sy, cr)),
            },
            c1: Vec3 {
                x: Scalar::from_wide(-times(cy, sr)),
                y: Scalar::from_wide(times(cp, cr) - times(sp_sy, sr)),
                z: Scalar::from_wide(times(sp, cr) + times(cp_sy, sr)),
            },
            c2: Vec3 {
                x: y.sin(),
                y: Scalar::from_wide(-times(sp, cy)),
                z: Scalar::from_wide(times(cp, cy)),
            },
        };
        Rotate { primitive: Box::new(primitive), matrix }
    }

    /// The shape that is turned.
    pub fn primitive(&self) -> (child: &Primitive)
        ensures
            self@ is Rotate,
            self@->Rotate_child == Box::new(child@),
    {
        &*self.primitive
    }

    /// The matrix by which a point is multiplied before the child is evaluated.
    pub fn matrix(&self) -> (matrix: Mat3)
        ensures
            self@ is Rotate,
            self@->Rotate_matrix == matrix@,
    {
        self.matrix
    }

    /// The expression of the child at the point `p` multiplied by the matrix.
    pub fn expression(&self, p: &str, shared_code: &mut Vec<String>) -> (expr: String)
        ensures
            compiled(expr, *final(shared_code)) == compile(
                self@,
                p@,
                old(shared_code).deep_view(),
            ),
        decreases self,
    {
        let mut point = String::new();
        self.matrix.append_to(&mut point);
        point.append(" * (");
        point.append(p);
        point.append(")");
        assert(point@ =~= crate::shader::rotate_point(p@, self.matrix@));
        self.primitive.expression(point.as_str(), shared_code)
    }
}

impl Clone for Rotate {
    fn clone(&self) -> (copy: Self)
        ensures
            copy@ == self@,
        decreases self,
    {
        Rotate { primitive: Box::new((*self.primitive).clone()), matrix: self.matrix }
    }
}

impl Scale {
    #[verifier::type_invariant]
    spec fn no_component_zero(self) -> bool {
        self.scale@.x != 0 && self.scale@.y != 0 && self.scale@.z != 0
    }

    /// The shape `primitive` scaled by `scale`, component by component. No
    /// component of the scale may be zero.
    pub fn new(primitive: Primitive, scale: Vec3) -> (r: Result<Scale, Error>)
        ensures
            shape_of(r) == (if scale@.x == 0 || scale@.y == 0 || scale@.z == 0 {
                Err::<Shape, Error>(Error::ZeroScale { scale })
            } else {
                Ok(Shape::Scale { child: Box::new(primitive@), scale: scale@ })
            }),
    {
        if scale.x.units() == 0 || scale.y.units() == 0 || scale.z.units() == 0 {
            return Err(Error::ZeroScale { scale });
        }
        Ok(Scale { primitive: Box::new(primitive), scale })
    }

    /// The shape that is scaled.
    pub fn primitive(&self) -> (child: &Primitive)
        ensures
            self@ is Scale,
            self@->Scale_child == Box::new(child@),
    {
        &*self.primitive
    }

    /// The scale, of which no component is zero.
    pub fn scale(&self) -> (scale: Vec3)
        ensures
            self@ is Scale,
            self@->Scale_scale == scale@,
            scale@.x != 0 && scale@.y != 0 && scale@.z != 0,
    {
        proof {
            use_type_invariant(self);
        }
        self.scale
    }

    /// One over each component of the scale.
    pub fn inverse(&self) -> (inverse: Vec3)
        ensures
            self@ is Scale,
            inverse@ == inverse_scale(self@->Scale_scale),
    {
        proof {
            use_type_invariant(self);
            lemma_round_div_bound(10_000_000_000_000_000, self.scale@.x);
            lemma_round_div_bound(10_000_000_000_000_000, self.scale@.y);
            lemma_round_div_bound(10_000_000_000_000_000, self.scale@.z);
        }
        Vec3 {
            x: Scalar::from_wide(div_round(10_000_000_000_000_000, self.scale.x.units() as i128)),
            y: Scalar::from_wide(div_round(10_000_000_000_000_000, self.scale.y.units() as i128)),
            z: Scalar::from_wide(div_round(10_000_000_000_000_000, self.scale.z.units() as i128)),
        }
    }

    /// The smallest magnitude among the components of the scale.
    pub fn least_magnitude(&self) -> (least: Scalar)
        ensures
            self@ is Scale,
            least@ == least_magnitude(self@->Scale_scale),
    {
        let magnitudes = Vec3 { x: self.scale.x.abs(), y: self.scale.y.abs(), z: self.scale.z.abs() };
        magnitudes.least()
    }

    /// The expression of the child at the point `p` divided by the scale,
    /// multiplied by the smallest magnitude of the scale.
    pub fn expression(&self, p: &str, shared_code: &mut Vec<String>) -> (expr: String)
        ensures
            compiled(expr, *final(shared_code)) == compile(
                self@,
                p@,
                old(shared_code).deep_view(),
            ),
        decreases self,
    {
        let mut point = String::from_str("(");
        point.append(p);
        point.append(") * ");
        self.inverse().append_to(&mut point);
        let inner = self.primitive.expression(point.as_str(), shared_code);
        let mut expr = String::from_str("(");
        expr.append(inner.as_str());
        expr.append(") * ");
        self.least_magnitude().append_to(&mut expr);
        expr
    }
}

impl Clone for Scale {
    fn clone(&self) -> (copy: Self)
        ensures
            copy@ == self@,
        decreases self,
    {
        proof {
            use_type_invariant(self);
        }
        Scale { primitive: Box::new((*self.primitive).clone()), scale: self.scale }
    }
}

} // verus!
