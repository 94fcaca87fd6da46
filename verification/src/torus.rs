//! The torus, whole or capped.

use vstd::prelude::*;
use crate::angle::Angle;
use crate::error::Error;
use crate::primitive::{compiled, shape_of, Primitive};
use crate::scalar::{div_round, lemma_round_div_nat_bound, magnitude, Scalar};
use crate::shader::{compile, major_radius, minor_radius};
use crate::shape::{Shape, Turn};
use crate::text::push_text;

verus! {

/// Pi, in units of `10^-8`.
pub const PI_UNITS: i64 = 314_159_265;

/// The torus about the z axis between an inner and an outer radius. A capped
/// torus is the part of it within an angle to either side of the y axis.
#[derive(Clone, Copy, Debug)]
pub struct Torus {
    inner: Scalar,
    outer: Scalar,
    cap_angle: Option<Angle>,
}

impl View for Torus {
    type V = Shape;

    closed spec fn view(&self) -> Shape {
        Shape::Torus {
            inner: self.inner@,
            outer: self.outer@,
            cap: match self.cap_angle {
                Some(a) => Some(a@),
                None => None,
            },
        }
    }
}

/// What the constructors of a torus give: the torus, or the first of the
/// conditions that fails. The inner radius has to be smaller than the outer
/// one, the outer one positive, and a cap angle between zero and pi.
pub open spec fn torus_result(inner: Scalar, outer: Scalar, cap: Option<Angle>) -> Result<
    Shape,
    Error,
> {
    if inner@ >= outer@ {
        Err(Error::InnerNotSmaller { inner, outer })
    } else if outer@ <= 0 {
        Err(Error::NonPositiveOuter { outer })
    } else {
        match cap {
            Some(a) => if a@.radians < 0 {
                Err(Error::NegativeCapAngle { angle: a })
            } else if a@.radians > PI_UNITS {
                Err(Error::CapAngleTooLarge { angle: a })
            } else {
                Ok(Shape::Torus { inner: inner@, outer: outer@, cap: Some(a@) })
            },
            None => Ok(Shape::Torus { inner: inner@, outer: outer@, cap: None }),
        }
    }
}

impl Torus {
    #[verifier::type_invariant]
    spec fn parameters_valid(self) -> bool {
        &&& self.inner@ < self.outer@
        &&& self.outer@ > 0
        &&& self.cap_angle matches Some(a) ==> 0 <= a@.radians <= PI_UNITS
    }

    /// The whole torus between the two radii.
    pub fn new(inner: Scalar, outer: Scalar) -> (r: Result<Primitive, Error>)
        ensures
            shape_of(r) == torus_result(inner, outer, None),
    {
        Torus::new_impl(inner, outer, None)
    }

    /// The torus between the two radii, capped at `cap_angle` to either side.
    pub fn new_capped(inner: Scalar, outer: Scalar, cap_angle: Angle) -> (r: Result<
        Primitive,
        Error,
    >)
        ensures
            shape_of(r) == torus_result(inner, outer, Some(cap_angle)),
    {
        Torus::new_impl(inner, outer, Some(cap_angle))
    }

    fn new_impl(inner: Scalar, outer: Scalar, cap_angle: Option<Angle>) -> (r: Result<
        Primitive,
        Error,
    >)
        ensures
            shape_of(r) == torus_result(inner, outer, cap_angle),
    {
        if inner.units() >= outer.units() {
            return Err(Error::InnerNotSmaller { inner, outer });
        }
        if outer.units() <= 0 {
            return Err(Error::NonPositiveOuter { outer });
        }
        match cap_angle {
            Some(a) => {
                if a.radians().units() < 0 {
                    return Err(Error::NegativeCapAngle { angle: a });
                }
                if a.radians().units() > PI_UNITS {
                    return Err(Error::CapAngleTooLarge { angle: a });
                }
            },
            None => {},
        }
        Ok(Primitive::Torus(Torus { inner, outer, cap_angle }))
    }

    /// The inner radius.
    pub fn inner(&self) -> (inner: Scalar)
        ensures
            self@ is Torus,
            self@->Torus_inner == inner@,
    {
        self.inner
    }

    /// The outer radius.
    pub fn outer(&self) -> (outer: Scalar)
        ensures
            self@ is Torus,
            self@->Torus_outer == outer@,
            self@->Torus_inner < outer@,
            outer@ > 0,
    {
        proof {
            use_type_invariant(self);
        }
        self.outer
    }

    /// The angle at which the torus is capped, if it is.
    pub fn cap_angle(&self) -> (cap: Option<Angle>)
        ensures
            self@ is Torus,
            self@->Torus_cap == (match cap {
                Some(a) => Some(a@),
                None => None::<Turn>,
            }),
            cap matches Some(a) ==> 0 <= a@.radians <= PI_UNITS,
    {
        proof {
            use_type_invariant(self);
        }
        self.cap_angle
    }

    /// The radius of the circle in the middle of the tube.
    pub fn major_radius(&self) -> (radius: Scalar)
        ensures
            self@ is Torus,
            radius@ == major_radius(self@->Torus_inner, self@->Torus_outer),
    {
        let sum: i128 = self.inner.units() as i128 + self.outer.units() as i128;
        proof {
            lemma_round_div_nat_bound(magnitude(sum as int), 2);
        }
        Scalar::from_wide(div_round(sum, 2))
    }

    /// The radius of the tube.
    pub fn minor_radius(&self) -> (radius: Scalar)
        ensures
            self@ is Torus,
            radius@ == minor_radius(self@->Torus_inner, self@->Torus_outer),
    {
        let gap: i128 = self.outer.units() as i128 - self.inner.units() as i128;
        proof {
            lemma_round_div_nat_bound(magnitude(gap as int), 2);
        }
        Scalar::from_wide(div_round(gap, 2))
    }

    /// The shader expression of the distance at the point `p`; appends the
    /// helper function of the whole or of the capped torus.
    pub fn expression(&self, p: &str, shared_code: &mut Vec<String>) -> (expr: String)
        ensures
            compiled(expr, *final(shared_code)) == compile(
                self@,
                p@,
                old(shared_code).deep_view(),
            ),
    {
        let major = self.major_radius();
        let minor = self.minor_radius();
        match self.cap_angle {
            None => {
                push_text(
                    shared_code,
                    "\nfloat Torus(vec3 p, vec2 t) {\n    vec2 q = vec2(length(p.xy) - t.x, p.z);\n    return length(q) - t.y;\n}",
                );
                let mut expr = String::from_str("Torus(");
                expr.append(p);
                expr.append(", vec2(");
                major.append_to(&mut expr);
                expr.append(", ");
                minor.append_to(&mut expr);
                expr.append("))");
                expr
            },
            Some(a) => {
                push_text(
                    shared_code,
                    "\nfloat CappedTorus(vec3 p, float ra, float rb, vec2 an) {\n    p.x = abs(p.x);\n    float k = (an.y * p.x > an.x * p.y) ? dot(p.xy, an) : length(p.xy);\n    return sqrt( dot(p, p) + ra * ra - 2.0 * ra * k) - rb;\n}\n",
                );
                let mut expr = String::from_str("CappedTorus(");
                expr.append(p);
                expr.append(", ");
                major.append_to(&mut expr);
                expr.append(", ");
                minor.append_to(&mut expr);
                expr.append(", vec2(");
                a.sin().append_to(&mut expr);
                expr.append(", ");
                a.cos().append_to(&mut expr);
                expr.append("))");
                expr
            },
        }
    }
}

} // verus!
