//! The tree of shapes.

use vstd::prelude::*;
use crate::angle::Angle;
use crate::boolean::{Boolean, Negation};
use crate::boxes::{ExactBox, RoundBox};
use crate::cylinder::{Capsule, Cylinder, RoundedCylinder};
use crate::error::Error;
use crate::plane::Plane;
use crate::repeat::{bounds_ordered, Repeat};
use crate::scalar::Scalar;
use crate::shader::{compile, Compiled};
use crate::shape::Shape;
use crate::sphere::Sphere;
use crate::torus::Torus;
use crate::transformations::{euler_matrix, Rotate, Scale, Translate};
use crate::vector::{least, IVec3, Vec3};
use crate::warp::{Bend, Twist};

verus! {

/// A shape: a leaf, a shape that wraps another, or a boolean of several.
/// A value owns its children; a copy of it copies the whole tree.
#[derive(Debug)]
pub enum Primitive {
    Sphere(Sphere),
    Plane(Plane),
    ExactBox(ExactBox),
    RoundBox(RoundBox),
    Cylinder(Cylinder),
    RoundedCylinder(RoundedCylinder),
    Capsule(Capsule),
    Torus(Torus),
    Translate(Translate),
    Rotate(Rotate),
    Scale(Scale),
    Repeat(Repeat),
    Twist(Twist),
    Bend(Bend),
    Boolean(Boolean),
    Negation(Negation),
}

impl View for Primitive {
    type V = Shape;

    open spec fn view(&self) -> Shape
        decreases self,
    {
        match self {
            Primitive::Sphere(s) => s@,
            Primitive::Plane(s) => s@,
            Primitive::ExactBox(s) => s@,
            Primitive::RoundBox(s) => s@,
            Primitive::Cylinder(s) => s@,
            Primitive::RoundedCylinder(s) => s@,
            Primitive::Capsule(s) => s@,
            Primitive::Torus(s) => s@,
            Primitive::Translate(s) => s@,
            Primitive::Rotate(s) => s@,
            Primitive::Scale(s) => s@,
            Primitive::Repeat(s) => s@,
            Primitive::Twist(s) => s@,
            Primitive::Bend(s) => s@,
            Primitive::Boolean(s) => s@,
            Primitive::Negation(s) => s@,
        }
    }
}

/// The shapes of a sequence of trees.
pub open spec fn shapes_of(trees: Seq<Primitive>) -> Seq<Shape> {
    Seq::new(trees.len(), |i: int| trees[i]@)
}

/// The shape of a result, with its error kept as it is.
pub open spec fn shape_of<P: View<V = Shape>>(r: Result<P, Error>) -> Result<Shape, Error> {
    match r {
        Ok(p) => Ok(p@),
        Err(e) => Err(e),
    }
}

/// An expression with the helper functions emitted so far.
pub open spec fn compiled(expr: String, code: Vec<String>) -> Compiled {
    Compiled { expr: expr@, code: code.deep_view() }
}

impl Primitive {
    /// Compiles the tree: returns the shader expression of its distance at the
    /// point `p`, and appends the helper functions that the expression calls
    /// to `shared_code`, those of the children of a node before its own.
    pub fn expression(&self, p: &str, shared_code: &mut Vec<String>) -> (expr: String)
        ensures
            compiled(expr, *final(shared_code)) == compile(
                self@,
                p@,
                old(shared_code).deep_view(),
            ),
        decreases self,
    {
        match self {
            Primitive::Sphere(s) => s.expression(p, shared_code),
            Primitive::Plane(s) => s.expression(p, shared_code),
            Primitive::ExactBox(s) => s.expression(p, shared_code),
            Primitive::RoundBox(s) => s.expression(p, shared_code),
            Primitive::Cylinder(s) => s.expression(p, shared_code),
            Primitive::RoundedCylinder(s) => s.expression(p, shared_code),
            Primitive::Capsule(s) => s.expression(p, shared_code),
            Primitive::Torus(s) => s.expression(p, shared_code),
            Primitive::Translate(s) => s.expression(p, shared_code),
            Primitive::Rotate(s) => s.expression(p, shared_code),
            Primitive::Scale(s) => s.expression(p, shared_code),
            Primitive::Repeat(s) => s.expression(p, shared_code),
            Primitive::Twist(s) => s.expression(p, shared_code),
            Primitive::Bend(s) => s.expression(p, shared_code),
            Primitive::Boolean(s) => s.expression(p, shared_code),
            Primitive::Negation(s) => s.expression(p, shared_code),
        }
    }
}

impl Primitive {
    /// A copy of the tree, moved by `vector`.
    pub fn translate(&self, vector: Vec3) -> (r: Primitive)
        ensures
            r@ == (Shape::Translate { child: Box::new(self@), vector: vector@ }),
    {
        Primitive::Translate(Translate::new(self.clone(), vector))
    }

    /// A copy of the tree, turned by the Euler angles `r` (roll), `p` (pitch)
    /// and `y` (yaw).
    pub fn rotate_euler(&self, r: Angle, p: Angle, y: Angle) -> (rotated: Primitive)
        ensures
            rotated@ == (Shape::Rotate {
                child: Box::new(self@),
                matrix: euler_matrix(r@, p@, y@),
            }),
    {
        Primitive::Rotate(Rotate::from_euler(self.clone(), r, p, y))
    }

    /// A copy of the tree, scaled by `scale`, of which no component may be zero.
    pub fn scale(&self, scale: Vec3) -> (r: Result<Primitive, Error>)
        ensures
            shape_of(r) == (if scale@.x == 0 || scale@.y == 0 || scale@.z == 0 {
                Err::<Shape, Error>(Error::ZeroScale { scale })
            } else {
                Ok(Shape::Scale { child: Box::new(self@), scale: scale@ })
            }),
    {
        match Scale::new(self.clone(), scale) {
            Ok(s) => Ok(Primitive::Scale(s)),
            Err(e) => Err(e),
        }
    }

    /// A copy of the tree, repeated in cells of size `bounds` from index
    /// `repeats_min` to index `repeats_max`.
    pub fn repeat(&self, bounds: Vec3, repeats_min: IVec3, repeats_max: IVec3) -> (r: Result<
        Primitive,
        Error,
    >)
        ensures
            shape_of(r) == (if least(bounds@) <= 0 {
                Err::<Shape, Error>(Error::NonPositiveCell { cell: bounds })
            } else if !bounds_ordered(repeats_min@, repeats_max@) {
                Err(Error::EmptyRepeatRange { min: repeats_min, max: repeats_max })
            } else {
                Ok(
                    Shape::Repeat {
                        child: Box::new(self@),
                        cell: bounds@,
                        min: repeats_min@,
                        max: repeats_max@,
                    },
                )
            }),
    {
        match Repeat::new(self.clone(), bounds, repeats_min, repeats_max) {
            Ok(s) => Ok(Primitive::Repeat(s)),
            Err(e) => Err(e),
        }
    }

    /// A copy of the tree, twisted once round for each `height_per_rotation`,
    /// which must not be zero.
    pub fn twist(&self, height_per_rotation: Scalar) -> (r: Result<Primitive, Error>)
        ensures
            shape_of(r) == (if height_per_rotation@ == 0 {
                Err::<Shape, Error>(Error::ZeroTwistHeight)
            } else {
                Ok(
                    Shape::Twist {
                        child: Box::new(self@),
                        height_per_rotation: height_per_rotation@,
                    },
                )
            }),
    {
        match Twist::new(self.clone(), height_per_rotation) {
            Ok(s) => Ok(Primitive::Twist(s)),
            Err(e) => Err(e),
        }
    }

    /// A copy of the tree, bent once round over `distance_for_full_circle`.
    pub fn bend(&self, distance_for_full_circle: Scalar) -> (r: Primitive)
        ensures
            r@ == (Shape::Bend {
                child: Box::new(self@),
                distance_for_full_circle: distance_for_full_circle@,
            }),
    {
        Primitive::Bend(Bend::new(self.clone(), distance_for_full_circle))
    }
}

impl Clone for Primitive {
    /// A copy of the whole tree.
    fn clone(&self) -> (copy: Self)
        ensures
            copy@ == self@,
        decreases self,
    {
        match self {
            Primitive::Sphere(s) => Primitive::Sphere(*s),
            Primitive::Plane(s) => Primitive::Plane(*s),
            Primitive::ExactBox(s) => Primitive::ExactBox(*s),
            Primitive::RoundBox(s) => Primitive::RoundBox(*s),
            Primitive::Cylinder(s) => Primitive::Cylinder(*s),
            Primitive::RoundedCylinder(s) => Primitive::RoundedCylinder(*s),
            Primitive::Capsule(s) => Primitive::Capsule(*s),
            Primitive::Torus(s) => Primitive::Torus(*s),
            Primitive::Translate(s) => Primitive::Translate(s.clone()),
            Primitive::Rotate(s) => Primitive::Rotate(s.clone()),
            Primitive::Scale(s) => Primitive::Scale(s.clone()),
            Primitive::Repeat(s) => Primitive::Repeat(s.clone()),
            Primitive::Twist(s) => Primitive::Twist(s.clone()),
            Primitive::Bend(s) => Primitive::Bend(s.clone()),
            Primitive::Boolean(s) => Primitive::Boolean(s.clone()),
            Primitive::Negation(s) => Primitive::Negation(s.clone()),
        }
    }
}

} // verus!
