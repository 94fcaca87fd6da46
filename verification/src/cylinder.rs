//! Cylinders and the capsule.

use vstd::prelude::*;
use crate::error::Error;
use crate::primitive::{compiled, shape_of, Primitive};
use crate::scalar::Scalar;
use crate::shader::compile;
use crate::shape::Shape;
use crate::text::push_text;
use crate::vector::Vec3;

verus! {

/// A cylinder: without bounds about the z axis, or capped between two ends.
#[derive(Clone, Copy, Debug)]
pub struct Cylinder {
    radius: Scalar,
    bounds: Option<(Vec3, Vec3)>,
}

/// The capped cylinder about the z axis with rounded rims.
#[derive(Clone, Copy, Debug)]
pub struct RoundedCylinder {
    main_radius: Scalar,
    rounding_radius: Scalar,
    height: Scalar,
}

/// The capsule between two ends.
#[derive(Clone, Copy, Debug)]
pub struct Capsule {
    radius: Scalar,
    begin: Vec3,
    end: Vec3,
}

impl View for Cylinder {
    type V = Shape;

    closed spec fn view(&self) -> Shape {
        Shape::Cylinder {
            radius: self.radius@,
            ends: match self.bounds {
                Some((begin, end)) => Some((begin@, end@)),
                None => None,
            },
        }
    }
}

impl View for RoundedCylinder {
    type V = Shape;

    closed spec fn view(&self) -> Shape {
        Shape::RoundedCylinder {
            main_radius: self.main_radius@,
            rounding_radius: self.rounding_radius@,
            height: self.height@,
        }
    }
}

impl View for Capsule {
    type V = Shape;

    closed spec fn view(&self) -> Shape {
        Shape::Capsule { radius: self.radius@, begin: self.begin@, end: self.end@ }
    }
}

impl Cylinder {
    #[verifier::type_invariant]
    spec fn parameters_valid(self) -> bool {
        &&& self.radius@ > 0
        &&& self.bounds matches Some((begin, end)) ==> begin@ != end@
    }

    /// The cylinder without bounds about the z axis. The radius has to be positive.
    pub fn new_infinite(radius: Scalar) -> (r: Result<Primitive, Error>)
        ensures
            shape_of(r) == (if radius@ <= 0 {
                Err::<Shape, Error>(Error::NonPositiveRadius { radius })
            } else {
                Ok(Shape::Cylinder { radius: radius@, ends: None })
            }),
    {
        Cylinder::new_impl(radius, None)
    }

    /// The capped cylinder from `begin` to `end`. The radius has to be
    /// positive, and the two ends must not coincide.
    pub fn new(radius: Scalar, begin: Vec3, end: Vec3) -> (r: Result<Primitive, Error>)
        ensures
            shape_of(r) == (if radius@ <= 0 {
                Err::<Shape, Error>(Error::NonPositiveRadius { radius })
            } else if begin@ == end@ {
                Err(Error::ZeroHeight)
            } else {
                Ok(Shape::Cylinder { radius: radius@, ends: Some((begin@, end@)) })
            }),
    {
        Cylinder::new_impl(radius, Some((begin, end)))
    }

    fn new_impl(radius: Scalar, bounds: Option<(Vec3, Vec3)>) -> (r: Result<Primitive, Error>)
        ensures
            shape_of(r) == (if radius@ <= 0 {
                Err::<Shape, Error>(Error::NonPositiveRadius { radius })
            } else if bounds matches Some((begin, end)) && begin@ == end@ {
                Err(Error::ZeroHeight)
            } else {
                Ok(
                    Shape::Cylinder {
                        radius: radius@,
                        ends: match bounds {
                            Some((begin, end)) => Some((begin@, end@)),
                            None => None,
                        },
                    },
                )
            }),
    {
        if radius.units() <= 0 {
            return Err(Error::NonPositiveRadius { radius });
        }
        match bounds {
            Some((begin, end)) => {
                if begin.same(&end) {
                    return Err(Error::ZeroHeight);
                }
            },
            None => {},
        }
        Ok(Primitive::Cylinder(Cylinder { radius, bounds }))
    }

    /// The radius.
    pub fn radius(&self) -> (radius: Scalar)
        ensures
            self@ is Cylinder,
            self@->Cylinder_radius == radius@,
            radius@ > 0,
    {
        proof {
            use_type_invariant(self);
        }
        self.radius
    }

    /// The two ends of a capped cylinder; `None` for one without bounds.
    pub fn bounds(&self) -> (bounds: Option<(Vec3, Vec3)>)
        ensures
            self@ is Cylinder,
            self@->Cylinder_ends == (match bounds {
                Some((begin, end)) => Some((begin@, end@)),
                None => None,
            }),
            bounds matches Some((begin, end)) ==> begin@ != end@,
    {
        proof {
            use_type_invariant(self);
        }
        self.bounds
    }

    /// The shader expression of the distance at the point `p`. A capped
    /// cylinder appends its helper function; one without bounds needs none.
    pub fn expression(&self, p: &str, shared_code: &mut Vec<String>) -> (expr: String)
        ensures
            compiled(expr, *final(shared_code)) == compile(
                self@,
                p@,
                old(shared_code).deep_view(),
            ),
    {
        match self.bounds {
            Some((begin, end)) => {
                push_text(
                    shared_code,
                    "\nfloat CappedCylinder(vec3 p, vec3 a, vec3 b, float r) {\n    vec3  ba = b - a;\n    vec3  pa = p - a;\n    float baba = dot(ba,ba);\n    float paba = dot(pa,ba);\n    float x = length(pa*baba-ba*paba) - r*baba;\n    float y = abs(paba-baba*0.5)-baba*0.5;\n    float x2 = x*x;\n    float y2 = y*y*baba;\n    float d = (max(x, y) < 0.0) ? -min(x2, y2) : (((x > 0.0) ? x2 : 0.0) + ((y > 0.0) ? y2 : 0.0));\n    return sign(d)*sqrt(abs(d))/baba;\n}\n",
                );
                let mut expr = String::from_str("CappedCylinder(");
                expr.append(p);
                expr.append(", ");
                begin.append_to(&mut expr);
                expr.append(", ");
                end.append_to(&mut expr);
                expr.append(", ");
                self.radius.append_to(&mut expr);
                expr.append(")");
                expr
            },
            None => {
                let mut expr = String::from_str("length((");
                expr.append(p);
                expr.append(").xy) - ");
                self.radius.append_to(&mut expr);
                expr
            },
        }
    }
}

impl RoundedCylinder {
    #[verifier::type_invariant]
    spec fn parameters_valid(self) -> bool {
        self.main_radius@ > 0 && self.rounding_radius@ >= 0 && self.height@ >= 0
    }

    /// The rounded cylinder. The main radius has to be positive; the rounding
    /// radius and the height must not be negative. The first of these that
    /// fails is reported.
    pub fn new(main_radius: Scalar, rounding_radius: Scalar, height: Scalar) -> (r: Result<
        Primitive,
        Error,
    >)
        ensures
            shape_of(r) == (if main_radius@ <= 0 {
                Err::<Shape, Error>(Error::NonPositiveRadius { radius: main_radius })
            } else if rounding_radius@ < 0 {
                Err(Error::NegativeRadius { radius: rounding_radius })
            } else if height@ < 0 {
                Err(Error::NegativeHeight { height })
            } else {
                Ok(
                    Shape::RoundedCylinder {
                        main_radius: main_radius@,
                        rounding_radius: rounding_radius@,
                        height: height@,
                    },
                )
            }),
    {
        if main_radius.units() <= 0 {
            return Err(Error::NonPositiveRadius { radius: main_radius });
        }
        if rounding_radius.units() < 0 {
            return Err(Error::NegativeRadius { radius: rounding_radius });
        }
        if height.units() < 0 {
            return Err(Error::NegativeHeight { height });
        }
        Ok(Primitive::RoundedCylinder(RoundedCylinder { main_radius, rounding_radius, height }))
    }

    /// The main radius.
    pub fn main_radius(&self) -> (radius: Scalar)
        ensures
            self@ is RoundedCylinder,
            self@->RoundedCylinder_main_radius == radius@,
            radius@ > 0,
    {
        proof {
            use_type_invariant(self);
        }
        self.main_radius
    }

    /// The radius of the rounding of the rims.
    pub fn rounding_radius(&self) -> (radius: Scalar)
        ensures
            self@ is RoundedCylinder,
            self@->RoundedCylinder_rounding_radius == radius@,
            radius@ >= 0,
    {
        proof {
            use_type_invariant(self);
        }
        self.rounding_radius
    }

    /// The height.
    pub fn height(&self) -> (height: Scalar)
        ensures
            self@ is RoundedCylinder,
            self@->RoundedCylinder_height == height@,
            height@ >= 0,
    {
        proof {
            use_type_invariant(self);
        }
        self.height
    }

    /// The shader expression of the distance at the point `p`; appends the
    /// helper function of rounded cylinders.
    pub fn expression(&self, p: &str, shared_code: &mut Vec<String>) -> (expr: String)
        ensures
            compiled(expr, *final(shared_code)) == compile(
                self@,
                p@,
                old(shared_code).deep_view(),
            ),
    {
        push_text(
            shared_code,
            "\nfloat RoundedCylinder(vec3 p, float ra, float rb, float h) {\n    vec2 d = vec2(length(p.xy) - 2.0 * ra + rb, abs(p.z) - h);\n    return min(max(d.x, d.y), 0.0) + length(max(d, 0.0)) - rb;\n}\n",
        );
        let mut expr = String::from_str("RoundedCylinder(");
        expr.append(p);
        expr.append(", ");
        self.main_radius.append_to(&mut expr);
        expr.append(", ");
        self.rounding_radius.append_to(&mut expr);
        expr.append(", ");
        self.height.append_to(&mut expr);
        expr.append(")");
        expr
    }
}

impl Capsule {
    #[verifier::type_invariant]
    spec fn radius_positive(self) -> bool {
        self.radius@ > 0
    }

    /// The capsule from `begin` to `end`. The radius has to be positive.
    pub fn new(radius: Scalar, begin: Vec3, end: Vec3) -> (r: Result<Primitive, Error>)
        ensures
            shape_of(r) == (if radius@ <= 0 {
                Err::<Shape, Error>(Error::NonPositiveRadius { radius })
            } else {
                Ok(Shape::Capsule { radius: radius@, begin: begin@, end: end@ })
            }),
    {
        if radius.units() <= 0 {
            return Err(Error::NonPositiveRadius { radius });
        }
        Ok(Primitive::Capsule(Capsule { radius, begin, end }))
    }

    /// The radius.
    pub fn radius(&self) -> (radius: Scalar)
        ensures
            self@ is Capsule,
            self@->Capsule_radius == radius@,
            radius@ > 0,
    {
        proof {
            use_type_invariant(self);
        }
        self.radius
    }

    /// The end at which the capsule begins.
    pub fn begin(&self) -> (begin: Vec3)
        ensures
            self@ is Capsule,
            self@->Capsule_begin == begin@,
    {
        self.begin
    }

    /// The end at which the capsule ends.
    pub fn end(&self) -> (end: Vec3)
        ensures
            self@ is Capsule,
            self@->Capsule_end == end@,
    {
        self.end
    }

    /// The shader expression of the distance at the point `p`; appends the
    /// helper function of capsules.
    pub fn expression(&self, p: &str, shared_code: &mut Vec<String>) -> (expr: String)
        ensures
            compiled(expr, *final(shared_code)) == compile(
                self@,
                p@,
                old(shared_code).deep_view(),
            ),
    {
        push_text(
            shared_code,
            "\nfloat Capsule(vec3 p, vec3 a, vec3 b, float r) {\n    vec3 pa = p - a, ba = b - a;\n    float h = clamp(dot(pa, ba) / dot(ba, ba), 0.0, 1.0 );\n    return length(pa - ba * h) - r;\n}\n",
        );
        let mut expr = String::from_str("Capsule(");
        expr.append(p);
        expr.append(", ");
        self.begin.append_to(&mut expr);
        expr.append(", ");
        self.end.append_to(&mut expr);
        expr.append(", ");
        self.radius.append_to(&mut expr);
        expr.append(")");
        expr
    }
}

} // verus!
