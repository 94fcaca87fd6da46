//! The mathematical model of a tree of shapes.
//!
//! Numbers are integers: unit counts of `10^-8`, but for the index bounds of a
//! repetition, which are whole numbers.

use vstd::prelude::*;
use crate::min_function::Kernel;
use crate::vector::{M3, V3};

verus! {

/// An angle together with its sine and cosine.
pub struct Turn {
    pub radians: int,
    pub sin: int,
    pub cos: int,
}

/// A tree of shapes.
pub enum Shape {
    /// The sphere about the origin.
    Sphere { radius: int },
    /// The half space below the plane with unit normal `normal` at offset `d`.
    Plane { normal: V3, d: int },
    /// The box about the origin with the half extents `half`.
    ExactBox { half: V3 },
    /// The box with rounded edges: the box of half extents `extent` grown by `radius`.
    RoundBox { extent: V3, radius: int },
    /// The cylinder about the z axis, or the capped cylinder between two ends.
    Cylinder { radius: int, ends: Option<(V3, V3)> },
    /// The capped cylinder about the z axis with rounded rims.
    RoundedCylinder { main_radius: int, rounding_radius: int, height: int },
    /// The capsule between two ends.
    Capsule { radius: int, begin: V3, end: V3 },
    /// The torus about the z axis between two radii, whole or capped by an angle.
    Torus { inner: int, outer: int, cap: Option<Turn> },
    /// The child moved by `vector`.
    Translate { child: Box<Shape>, vector: V3 },
    /// The child at the point multiplied by `matrix`.
    Rotate { child: Box<Shape>, matrix: M3 },
    /// The child scaled by `scale`, component by component.
    Scale { child: Box<Shape>, scale: V3 },
    /// The child repeated on a grid of cells, from index `min` to index `max`.
    Repeat { child: Box<Shape>, cell: V3, min: V3, max: V3 },
    /// The child twisted about the z axis, once round per `height_per_rotation`.
    Twist { child: Box<Shape>, height_per_rotation: int },
    /// The child bent around the z axis, once round per `distance_for_full_circle`.
    Bend { child: Box<Shape>, distance_for_full_circle: int },
    /// The children blended by a kernel; `negate` changes the sign of the result.
    Boolean { children: Seq<Shape>, kernel: Kernel, negate: bool },
    /// The child with the sign of its distance changed.
    Negation { child: Box<Shape> },
}

/// The shapes in order, each negated.
pub open spec fn negated(shapes: Seq<Shape>) -> Seq<Shape> {
    Seq::new(shapes.len(), |i: int| Shape::Negation { child: Box::new(shapes[i]) })
}

/// The union of the children: their blend as it is.
pub open spec fn union_of(children: Seq<Shape>) -> Shape {
    Shape::Boolean { children, kernel: Kernel::Default, negate: false }
}

/// The intersection of the children: the negated blend of the negated children.
pub open spec fn intersection_of(children: Seq<Shape>) -> Shape {
    Shape::Boolean { children: negated(children), kernel: Kernel::Default, negate: true }
}

/// The children of the intersection that a difference is: the first child as
/// it is, each further one negated.
pub open spec fn difference_parts(children: Seq<Shape>) -> Seq<Shape> {
    Seq::new(
        children.len(),
        |i: int|
            if i == 0 {
                children[0]
            } else {
                Shape::Negation { child: Box::new(children[i]) }
            },
    )
}

/// The difference of the first child and all further ones.
pub open spec fn difference_of(children: Seq<Shape>) -> Shape {
    intersection_of(difference_parts(children))
}

} // verus!
