//! Signed-distance-field shapes and their compilation to shader source.
//!
//! A shape is a tree of primitives: leaves such as spheres and boxes, shapes
//! that move, turn, scale, repeat, twist or bend another shape, and booleans
//! that blend several shapes by a smoothing kernel. A tree compiles to one
//! shader expression of its distance at a point, and to the helper functions
//! that the expression calls.
//!
//! Numbers are decimal fixed-point numbers with eight fractional digits, the
//! precision of the numerals in the shader source.

pub mod angle;
pub mod boolean;
pub mod boolean_kind;
pub mod boxes;
pub mod cylinder;
pub mod decimal;
pub mod error;
pub mod laws;
pub mod mesh;
pub mod min_function;
pub mod plane;
pub mod primitive;
pub mod renderer;
pub mod repeat;
pub mod scalar;
pub mod shader;
pub mod shape;
pub mod sphere;
pub mod text;
pub mod torus;
pub mod transformations;
pub mod vector;
pub mod warp;

pub use angle::Angle;
pub use boolean::{Boolean, Negation};
pub use boolean_kind::BooleanKind;
pub use boxes::{ExactBox, RoundBox};
pub use cylinder::{Capsule, Cylinder, RoundedCylinder};
pub use error::Error;
pub use mesh::Mesh;
pub use min_function::{
    MinChamfer, MinCubicPolynomial, MinDefault, MinExponential, MinFunction, MinPolynomial,
    MinRoot, MinStairs,
};
pub use plane::Plane;
pub use primitive::Primitive;
pub use renderer::generate_renderer_shader;
pub use repeat::Repeat;
pub use scalar::Scalar;
pub use sphere::Sphere;
pub use torus::Torus;
pub use transformations::{Rotate, Scale, Translate};
pub use vector::{IVec3, Mat3, Vec3};
pub use warp::{Bend, Twist};
