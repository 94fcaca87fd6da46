//! Boxes, with sharp and with rounded edges.

use vstd::prelude::*;
use crate::error::Error;
use crate::primitive::{compiled, shape_of, Primitive};
use crate::scalar::{lemma_round_div_nat_bound, magnitude, Scalar};
use crate::shader::compile;
use crate::shape::Shape;
use crate::text::push_text;
use crate::vector::{halved, least, Vec3, V3};

verus! {

/// Each component less `r`.
pub open spec fn shrunk(v: V3, r: int) -> V3 {
    V3 { x: v.x - r, y: v.y - r, z: v.z - r }
}

/// The box about the origin, with its exact distance.
#[derive(Clone, Copy, Debug)]
pub struct ExactBox {
    size: Vec3,
}

/// The box about the origin whose edges are rounded with a radius.
#[derive(Clone, Copy, Debug)]
pub struct RoundBox {
    size: Vec3,
    radius: Scalar,
}

impl View for ExactBox {
    type V = Shape;

    closed spec fn view(&self) -> Shape {
        Shape::ExactBox { half: self.size@ }
    }
}

impl View for RoundBox {
    type V = Shape;

    closed spec fn view(&self) -> Shape {
        Shape::RoundBox { extent: self.size@, radius: self.radius@ }
    }
}

impl ExactBox {
    /// The box of the given extents, all of which have to be positive.
    pub fn new(size: Vec3) -> (r: Result<Primitive, Error>)
        ensures
            shape_of(r) == (if least(size@) <= 0 {
                Err::<Shape, Error>(Error::NonPositiveSize { size })
            } else {
                Ok(Shape::ExactBox { half: halved(size@) })
            }),
    {
        if size.least().units() <= 0 {
            Err(Error::NonPositiveSize { size })
        } else {
            Ok(Primitive::ExactBox(ExactBox { size: size.half() }))
        }
    }

    /// Half of each extent.
    pub fn half_size(&self) -> (half: Vec3)
        ensures
            self@ == (Shape::ExactBox { half: half@ }),
    {
        self.size
    }

    /// The shader expression of the distance at the point `p`; appends the
    /// helper function of boxes.
    pub fn expression(&self, p: &str, shared_code: &mut Vec<String>) -> (expr: String)
        ensures
            compiled(expr, *final(shared_code)) == compile(
                self@,
                p@,
                old(shared_code).deep_view(),
            ),
    {
        push_text(
            shared_code,
            "\nfloat Box( vec3 p, vec3 b ) {\n    vec3 q = abs(p) - b;\n    return length(max(q,0.0)) + min(max(q.x,max(q.y,q.z)),0.0);\n}\n",
        );
        let mut expr = String::from_str("Box(");
        expr.append(p);
        expr.append(", ");
        self.size.append_to(&mut expr);
        expr.append(")");
        expr
    }
}

impl RoundBox {
    #[verifier::type_invariant]
    spec fn radius_not_negative(self) -> bool {
        self.radius@ >= 0
    }

    /// The box of the given extents with its edges rounded by `radius`. The
    /// extents have to be positive, and the radius must not be negative. The
    /// rounding is taken off the extents, so the box keeps its size.
    pub fn new(size: Vec3, radius: Scalar) -> (r: Result<Primitive, Error>)
        ensures
            shape_of(r) == (if least(size@) <= 0 {
                Err::<Shape, Error>(Error::NonPositiveSize { size })
            } else if radius@ < 0 {
                Err(Error::NegativeRadius { radius })
            } else {
                Ok(Shape::RoundBox { extent: shrunk(halved(size@), radius@), radius: radius@ })
            }),
    {
        if size.least().units() <= 0 {
            return Err(Error::NonPositiveSize { size });
        }
        if radius.units() < 0 {
            return Err(Error::NegativeRadius { radius });
        }
        let half = size.half();
        proof {
            lemma_round_div_nat_bound(magnitude(size.x@), 2);
            lemma_round_div_nat_bound(magnitude(size.y@), 2);
            lemma_round_div_nat_bound(magnitude(size.z@), 2);
        }
        let r: i128 = radius.units() as i128;
        let extent = Vec3 {
            x: Scalar::from_wide(half.x.units() as i128 - r),
            y: Scalar::from_wide(half.y.units() as i128 - r),
            z: Scalar::from_wide(half.z.units() as i128 - r),
        };
        Ok(Primitive::RoundBox(RoundBox { size: extent, radius }))
    }

    /// Half of each extent, less the rounding.
    pub fn extent(&self) -> (extent: Vec3)
        ensures
            self@ is RoundBox,
            self@->RoundBox_extent == extent@,
    {
        self.size
    }

    /// The radius of the rounding.
    pub fn radius(&self) -> (radius: Scalar)
        ensures
            self@ is RoundBox,
            self@->RoundBox_radius == radius@,
            radius@ >= 0,
    {
        proof {
            use_type_invariant(self);
        }
        self.radius
    }

    /// The shader expression of the distance at the point `p`; appends the
    /// helper function of round boxes.
    pub fn expression(&self, p: &str, shared_code: &mut Vec<String>) -> (expr: String)
        ensures
            compiled(expr, *final(shared_code)) == compile(
                self@,
                p@,
                old(shared_code).deep_view(),
            ),
    {
        push_text(
            shared_code,
            "\nfloat RoundBox( vec3 p, vec3 b, float r ) {\n    vec3 q = abs(p) - b;\n    return length(max(q,0.0)) + min(max(q.x,max(q.y,q.z)),0.0) - r;\n}\n",
        );
        let mut expr = String::from_str("RoundBox(");
        expr.append(p);
        expr.append(", ");
        self.size.append_to(&mut expr);
        expr.append(", ");
        self.radius.append_to(&mut expr);
        expr.append(")");
        expr
    }
}

} // verus!
