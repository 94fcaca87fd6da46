//! Angles that carry their sine and cosine.
//!
//! The shapes do no trigonometry of their own. Where a shape needs the sine
//! and cosine of an angle, it takes an [`Angle`], which holds both next to the
//! angle and is only made of a pair that lies on the unit circle.

use vstd::prelude::*;
use crate::error::Error;
use crate::scalar::Scalar;
use crate::shape::Turn;

verus! {

/// Whether a sine and a cosine, in units of `10^-8`, lie on the unit circle:
/// whether the sum of their squares is one, to within `10^-6`.
pub open spec fn on_unit_circle(sin: int, cos: int) -> bool {
    let sum = sin * sin + cos * cos;
    10_000_000_000_000_000 - 10_000_000_000 <= sum <= 10_000_000_000_000_000 + 10_000_000_000
}

/// On the unit circle neither component is much larger than one.
pub proof fn lemma_unit_circle_bounds(sin: int, cos: int)
    requires
        on_unit_circle(sin, cos),
    ensures
        -100_000_050 <= sin <= 100_000_050,
        -100_000_050 <= cos <= 100_000_050,
{
    assert(sin * sin >= 0 && cos * cos >= 0) by (nonlinear_arith);
    assert(sin > 100_000_050 ==> sin * sin > 10_000_010_000_000_000) by (nonlinear_arith);
    assert(sin < -100_000_050 ==> sin * sin > 10_000_010_000_000_000) by (nonlinear_arith);
    assert(cos > 100_000_050 ==> cos * cos > 10_000_010_000_000_000) by (nonlinear_arith);
    assert(cos < -100_000_050 ==> cos * cos > 10_000_010_000_000_000) by (nonlinear_arith);
}

/// An angle in radians, with its sine and cosine.
#[derive(Clone, Copy, Debug, PartialEq, Eq)]
pub struct Angle {
    radians: Scalar,
    sin: Scalar,
    cos: Scalar,
}

impl View for Angle {
    type V = Turn;

    closed spec fn view(&self) -> Turn {
        Turn { radians: self.radians@, sin: self.sin@, cos: self.cos@ }
    }
}

/// The turn of a result, with its error kept as it is.
pub open spec fn turn_of(r: Result<Angle, Error>) -> Result<Turn, Error> {
    match r {
        Ok(a) => Ok(a@),
        Err(e) => Err(e),
    }
}

impl Angle {
    #[verifier::type_invariant]
    spec fn lies_on_unit_circle(self) -> bool {
        on_unit_circle(self.sin@, self.cos@)
    }

    /// The angle of `radians` radians, whose sine is `sin` and whose cosine is
    /// `cos`. The pair has to lie on the unit circle; that it belongs to
    /// `radians` is left to the caller.
    pub fn new(radians: Scalar, sin: Scalar, cos: Scalar) -> (r: Result<Angle, Error>)
        ensures
            turn_of(r) == (if on_unit_circle(sin@, cos@) {
                Ok::<Turn, Error>(Turn { radians: radians@, sin: sin@, cos: cos@ })
            } else {
                Err(Error::NotOnUnitCircle { sin, cos })
            }),
    {
        let s: i128 = sin.units() as i128;
        let c: i128 = cos.units() as i128;
        assert(0 <= s * s <= 1_000_000_000_000_000_000_000_000_000_000_000_000) by (nonlinear_arith)
            requires
                -1_000_000_000_000_000_000 <= s <= 1_000_000_000_000_000_000,
        ;
        assert(0 <= c * c <= 1_000_000_000_000_000_000_000_000_000_000_000_000) by (nonlinear_arith)
            requires
                -1_000_000_000_000_000_000 <= c <= 1_000_000_000_000_000_000,
        ;
        let sum: i128 = s * s + c * c;
        if 10_000_000_000_000_000 - 10_000_000_000 <= sum && sum <= 10_000_000_000_000_000
            + 10_000_000_000 {
            Ok(Angle { radians, sin, cos })
        } else {
            Err(Error::NotOnUnitCircle { sin, cos })
        }
    }

    /// The angle, in radians.
    pub fn radians(&self) -> (radians: Scalar)
        ensures
            radians@ == self@.radians,
    {
        self.radians
    }

    /// The sine of the angle.
    pub fn sin(&self) -> (sin: Scalar)
        ensures
            sin@ == self@.sin,
            on_unit_circle(self@.sin, self@.cos),
    {
        proof {
            use_type_invariant(self);
        }
        self.sin
    }

    /// The cosine of the angle.
    pub fn cos(&self) -> (cos: Scalar)
        ensures
            cos@ == self@.cos,
            on_unit_circle(self@.sin, self@.cos),
    {
        proof {
            use_type_invariant(self);
        }
        self.cos
    }
}

} // verus!
