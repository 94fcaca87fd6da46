//! The sphere.

use vstd::prelude::*;
use crate::error::Error;
use crate::primitive::{compiled, shape_of, Primitive};
use crate::scalar::Scalar;
use crate::shader::compile;
use crate::shape::Shape;

verus! {

/// The sphere about the origin. Its distance at `p` is `|p| - radius`.
#[derive(Clone, Copy, Debug)]
pub struct Sphere {
    radius: Scalar,
}

impl View for Sphere {
    type V = Shape;

    closed spec fn view(&self) -> Shape {
        Shape::Sphere { radius: self.radius@ }
    }
}

impl Sphere {
    #[verifier::type_invariant]
    spec fn radius_positive(self) -> bool {
        self.radius@ > 0
    }

    /// The sphere of the given radius, which has to be positive.
    pub fn new(radius: Scalar) -> (r: Result<Primitive, Error>)
        ensures
            shape_of(r) == (if radius@ <= 0 {
                Err::<Shape, Error>(Error::NonPositiveRadius { radius })
            } else {
                Ok(Shape::Sphere { radius: radius@ })
            }),
    {
        if radius.units() <= 0 {
            Err(Error::NonPositiveRadius { radius })
        } else {
            Ok(Primitive::Sphere(Sphere { radius }))
        }
    }

    /// The radius.
    pub fn radius(&self) -> (radius: Scalar)
        ensures
            self@ == (Shape::Sphere { radius: radius@ }),
            radius@ > 0,
    {
        proof {
            use_type_invariant(self);
        }
        self.radius
    }

    /// The shader expression of the distance at the point `p`. A sphere needs
    /// no helper function.
    pub fn expression(&self, p: &str, shared_code: &mut Vec<String>) -> (expr: String)
        ensures
            compiled(expr, *final(shared_code)) == compile(
                self@,
                p@,
                old(shared_code).deep_view(),
            ),
    {
        let mut expr = String::from_str("length(");
        expr.append(p);
        expr.append(") - ");
        self.radius.append_to(&mut expr);
        expr
    }
}

} // verus!
