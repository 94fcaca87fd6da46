//! Twisting and bending a shape.

use vstd::prelude::*;
use crate::error::Error;
use crate::primitive::{compiled, shape_of, Primitive};
use crate::scalar::{
    div_round, lemma_round_div_bound, lemma_round_div_nat_limit, magnitude, Scalar,
};
use crate::shader::{bend_scale, compile, radians_per_height};
use crate::shape::Shape;
use crate::text::push_text;

verus! {

/// Two pi, in units of `10^-8`.
pub const TWO_PI_UNITS: i64 = 628_318_531;

/// A shape twisted about the z axis: the child is evaluated at the point turned
/// about z by an angle that grows with the height, a full turn for each
/// `height_per_rotation`.
#[derive(Debug)]
pub struct Twist {
    primitive: Box<Primitive>,
    height_per_rotation: Scalar,
}

/// A shape bent around the z axis: the child is evaluated at the point given by
/// its angle about z, scaled so that `distance_for_full_circle` goes once
/// round, its distance from the axis, and its height.
#[derive(Debug)]
pub struct Bend {
    primitive: Box<Primitive>,
    distance_for_full_circle: Scalar,
}

impl View for Twist {
    type V = Shape;

    closed spec fn view(&self) -> Shape
        decreases self,
    {
        Shape::Twist {
            child: Box::new((*self.primitive).view()),
            height_per_rotation: self.height_per_rotation@,
        }
    }
}

impl View for Bend {
    type V = Shape;

    closed spec fn view(&self) -> Shape
        decreases self,
    {
        Shape::Bend {
            child: Box::new((*self.primitive).view()),
            distance_for_full_circle: self.distance_for_full_circle@,
        }
    }
}

impl Twist {
    #[verifier::type_invariant]
    spec fn height_not_zero(self) -> bool {
        self.height_per_rotation@ != 0
    }

    /// The shape `primitive` twisted once round for each
    /// `height_per_rotation`, which must not be zero.
    pub fn new(primitive: Primitive, height_per_rotation: Scalar) -> (r: Result<Twist, Error>)
        ensures
            shape_of(r) == (if height_per_rotation@ == 0 {
                Err::<Shape, Error>(Error::ZeroTwistHeight)
            } else {
                Ok(
                    Shape::Twist {
                        child: Box::new(primitive@),
                        height_per_rotation: height_per_rotation@,
                    },
                )
            }),
    {
        if height_per_rotation.units() == 0 {
            return Err(Error::ZeroTwistHeight);
        }
        Ok(Twist { primitive: Box::new(primitive), height_per_rotation })
    }

    /// The shape that is twisted.
    pub fn primitive(&self) -> (child: &Primitive)
        ensures
            self@ is Twist,
            self@->Twist_child == Box::new(child@),
    {
        &*self.primitive
    }

    /// The height over which the twist goes once round; never zero.
    pub fn height_per_rotation(&self) -> (height: Scalar)
        ensures
            self@ is Twist,
            self@->Twist_height_per_rotation == height@,
            height@ != 0,
    {
        proof {
            use_type_invariant(self);
        }
        self.height_per_rotation
    }

    /// The angle of the twist per unit of height.
    pub fn radians_per_height(&self) -> (radians: Scalar)
        ensures
            self@ is Twist,
            radians@ == radians_per_height(self@->Twist_height_per_rotation),
    {
        proof {
            use_type_invariant(self);
            lemma_round_div_bound(62_831_853_100_000_000, self.height_per_rotation@);
        }
        Scalar::from_wide(
            div_round(62_831_853_100_000_000, self.height_per_rotation.units() as i128),
        )
    }

    /// The expression of the child at the twisted point; appends the helper
    /// function of the twist after the helpers of the child.
    pub fn expression(&self, p: &str, shared_code: &mut Vec<String>) -> (expr: String)
        ensures
            compiled(expr, *final(shared_code)) == compile(
                self@,
                p@,
                old(shared_code).deep_view(),
            ),
        decreases self,
    {
        let mut point = String::from_str("TwistXY(");
        point.append(p);
        point.append(", ");
        self.radians_per_height().append_to(&mut point);
        point.append(")");
        let expr = self.primitive.expression(point.as_str(), shared_code);
        push_text(
            shared_code,
            "\nvec3 TwistXY(vec3 p, float rad_per_h) {\n    float a = p.z * rad_per_h;\n    float sin_a = sin(a);\n    float cos_a = cos(a);\n    mat2 rmat = mat2(cos_a, -sin_a, sin_a, cos_a);\n    return vec3(rmat * p.xy, p.z);\n}\n",
        );
        expr
    }
}

impl Clone for Twist {
    fn clone(&self) -> (copy: Self)
        ensures
            copy@ == self@,
        decreases self,
    {
        proof {
            use_type_invariant(self);
        }
        Twist {
            primitive: Box::new((*self.primitive).clone()),
            height_per_rotation: self.height_per_rotation,
        }
    }
}

impl Bend {
    /// The shape `primitive` bent once round over `distance_for_full_circle`.
    pub fn new(primitive: Primitive, distance_for_full_circle: Scalar) -> (r: Bend)
        ensures
            r@ == (Shape::Bend {
                child: Box::new(primitive@),
                distance_for_full_circle: distance_for_full_circle@,
            }),
    {
        Bend { primitive: Box::new(primitive), distance_for_full_circle }
    }

    /// The shape that is bent.
    pub fn primitive(&self) -> (child: &Primitive)
        ensures
            self@ is Bend,
            self@->Bend_child == Box::new(child@),
    {
        &*self.primitive
    }

    /// The distance that goes once round.
    pub fn distance_for_full_circle(&self) -> (distance: Scalar)
        ensures
            self@ is Bend,
            self@->Bend_distance_for_full_circle == distance@,
    {
        self.distance_for_full_circle
    }

    /// The arc length per radian of the bend.
    pub fn bend_scale(&self) -> (scale: Scalar)
        ensures
            self@ is Bend,
            scale@ == bend_scale(self@->Bend_distance_for_full_circle),
    {
        let d: i128 = self.distance_for_full_circle.units() as i128;
        proof {
            lemma_round_div_nat_limit(
                magnitude(d * 100_000_000),
                628_318_531,
                1_000_000_000_000_000_000,
            );
        }
        Scalar::from_wide(div_round(d * 100_000_000, 628_318_531))
    }

    /// The expression of the child at the bent point; appends the helper
    /// function of the bend after the helpers of the child.
    pub fn expression(&self, p: &str, shared_code: &mut Vec<String>) -> (expr: String)
        ensures
            compiled(expr, *final(shared_code)) == compile(
                self@,
                p@,
                old(shared_code).deep_view(),
            ),
        decreases self,
    {
        let mut point = String::from_str("BendAroundZ(");
        point.append(p);
        point.append(", ");
        self.bend_scale().append_to(&mut point);
        point.append(")");
        let expr = self.primitive.expression(point.as_str(), shared_code);
        push_text(
            shared_code,
            "\nvec3 BendAroundZ(vec3 p, float y_scale) {\n    float a = atan(p.x, p.y);\n    float r = length(p.xy);\n    return vec3(a * y_scale, r, p.z);\n}\n",
        );
        expr
    }
}

impl Clone for Bend {
    fn clone(&self) -> (copy: Self)
        ensures
            copy@ == self@,
        decreases self,
    {
        Bend {
            primitive: Box::new((*self.primitive).clone()),
            distance_for_full_circle: self.distance_for_full_circle,
        }
    }
}

} // verus!
