//! Repeating a shape on a grid.

use vstd::prelude::*;
use crate::error::Error;
use crate::primitive::{compiled, shape_of, Primitive};
use crate::shader::compile;
use crate::shape::Shape;
use crate::vector::{least, IVec3, Vec3, V3};

verus! {

/// Whether each upper index bound is at least the lower one.
pub open spec fn bounds_ordered(min: V3, max: V3) -> bool {
    min.x <= max.x && min.y <= max.y && min.z <= max.z
}

/// A shape repeated on a grid of cells, for the grid indices from
/// `repeats_min` to `repeats_max` along each axis. The child is evaluated at
/// the point less the centre of the nearest cell within the bounds.
#[derive(Debug)]
pub struct Repeat {
    primitive: Box<Primitive>,
    bounds: Vec3,
    repeats_min: IVec3,
    repeats_max: IVec3,
}

impl View for Repeat {
    type V = Shape;

    closed spec fn view(&self) -> Shape
        decreases self,
    {
        Shape::Repeat {
            child: Box::new((*self.primitive).view()),
            cell: self.bounds@,
            min: self.repeats_min@,
            max: self.repeats_max@,
        }
    }
}

impl Repeat {
    #[verifier::type_invariant]
    spec fn parameters_valid(self) -> bool {
        least(self.bounds@) > 0 && bounds_ordered(self.repeats_min@, self.repeats_max@)
    }

    /// The shape `primitive` repeated in cells of size `bounds`, all components
    /// of which have to be positive, from index `repeats_min` to index
    /// `repeats_max`, of which no component may be below that of `repeats_min`.
    pub fn new(primitive: Primitive, bounds: Vec3, repeats_min: IVec3, repeats_max: IVec3) -> (r:
        Result<Repeat, Error>)
        ensures
            shape_of(r) == (if least(bounds@) <= 0 {
                Err::<Shape, Error>(Error::NonPositiveCell { cell: bounds })
            } else if !bounds_ordered(repeats_min@, repeats_max@) {
                Err(Error::EmptyRepeatRange { min: repeats_min, max: repeats_max })
            } else {
                Ok(
                    Shape::Repeat {
                        child: Box::new(primitive@),
                        cell: bounds@,
                        min: repeats_min@,
                        max: repeats_max@,
                    },
                )
            }),
    {
        if bounds.least().units() <= 0 {
            return Err(Error::NonPositiveCell { cell: bounds });
        }
        if repeats_max.x < repeats_min.x || repeats_max.y < repeats_min.y || repeats_max.z
            < repeats_min.z {
            return Err(Error::EmptyRepeatRange { min: repeats_min, max: repeats_max });
        }
        Ok(Repeat { primitive: Box::new(primitive), bounds, repeats_min, repeats_max })
    }

    /// The shape that is repeated.
    pub fn primitive(&self) -> (child: &Primitive)
        ensures
            self@ is Repeat,
            self@->Repeat_child == Box::new(child@),
    {
        &*self.primitive
    }

    /// The size of a cell, all components positive.
    pub fn bounds(&self) -> (bounds: Vec3)
        ensures
            self@ is Repeat,
            self@->Repeat_cell == bounds@,
            least(bounds@) > 0,
    {
        proof {
            use_type_invariant(self);
        }
        self.bounds
    }

    /// The lowest grid index along each axis.
    pub fn repeats_min(&self) -> (min: IVec3)
        ensures
            self@ is Repeat,
            self@->Repeat_min == min@,
            bounds_ordered(min@, self@->Repeat_max),
    {
        proof {
            use_type_invariant(self);
        }
        self.repeats_min
    }

    /// The highest grid index along each axis.
    pub fn repeats_max(&self) -> (max: IVec3)
        ensures
            self@ is Repeat,
            self@->Repeat_max == max@,
            bounds_ordered(self@->Repeat_min, max@),
    {
        proof {
            use_type_invariant(self);
        }
        self.repeats_max
    }

    /// The expression of the child at the point `p` folded into its cell.
    pub fn expression(&self, p: &str, shared_code: &mut Vec<String>) -> (expr: String)
        ensures
            compiled(expr, *final(shared_code)) == compile(
                self@,
                p@,
                old(shared_code).deep_view(),
            ),
        decreases self,
    {
        let mut point = String::from_str("(");
        point.append(p);
        point.append(") - ");
        self.bounds.append_to(&mut point);
        point.append(" * clamp(round((");
        point.append(p);
        point.append(") / ");
        self.bounds.append_to(&mut point);
        point.append("), ");
        self.repeats_min.append_to(&mut point);
        point.append(", ");
        self.repeats_max.append_to(&mut point);
        point.append(")");
        assert(point@ =~= crate::shader::repeat_point(
            p@,
            self.bounds@,
            self.repeats_min@,
            self.repeats_max@,
        ));
        self.primitive.expression(point.as_str(), shared_code)
    }
}

impl Clone for Repeat {
    fn clone(&self) -> (copy: Self)
        ensures
            copy@ == self@,
        decreases self,
    {
        proof {
            use_type_invariant(self);
        }
        Repeat {
            primitive: Box::new((*self.primitive).clone()),
            bounds: self.bounds,
            repeats_min: self.repeats_min,
            repeats_max: self.repeats_max,
        }
    }
}

} // verus!
