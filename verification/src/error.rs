//! The failures of construction and composition.

use vstd::prelude::*;
use crate::angle::Angle;
use crate::boolean_kind::BooleanKind;
use crate::decimal::{append_int, append_nat, int_text, nat_text};
use crate::scalar::{fixed_text, Scalar};
use crate::shader::blend_stem;
use crate::vector::{vec3_text, whole_vec3_text, IVec3, Vec3};

verus! {

/// Why a shape, a smoothing kernel or a combination of the two was refused.
#[derive(Clone, Copy, Debug, PartialEq, Eq)]
pub enum Error {
    /// A radius that has to be positive is zero or negative.
    NonPositiveRadius { radius: Scalar },
    /// A rounding radius is negative.
    NegativeRadius { radius: Scalar },
    /// A height is negative.
    NegativeHeight { height: Scalar },
    /// The two ends of a capped cylinder coincide.
    ZeroHeight,
    /// The normal of a plane is the zero vector.
    ZeroNormal,
    /// An extent of a box is zero or negative.
    NonPositiveSize { size: Vec3 },
    /// The inner radius of a torus is not smaller than the outer one.
    InnerNotSmaller { inner: Scalar, outer: Scalar },
    /// The outer radius of a torus is zero or negative.
    NonPositiveOuter { outer: Scalar },
    /// The cap angle of a torus is negative.
    NegativeCapAngle { angle: Angle },
    /// The cap angle of a torus is larger than pi.
    CapAngleTooLarge { angle: Angle },
    /// A sine and a cosine that do not lie on the unit circle.
    NotOnUnitCircle { sin: Scalar, cos: Scalar },
    /// A component of the cell size of a repetition is zero or negative.
    NonPositiveCell { cell: Vec3 },
    /// An upper index bound of a repetition is below the lower one.
    EmptyRepeatRange { min: IVec3, max: IVec3 },
    /// A component of a scale is zero.
    ZeroScale { scale: Vec3 },
    /// The height per rotation of a twist is zero.
    ZeroTwistHeight,
    /// A boolean was given fewer than two children.
    TooFewChildren { got: usize },
    /// A difference was given no child at all.
    NoChildren,
    /// A kernel that blends exactly two distances was given another number.
    KernelArity { kind: BooleanKind, got: usize },
    /// A smoothing parameter is negative.
    NegativeSmoothing { kind: BooleanKind, k: Scalar },
    /// The number of steps of a stairs kernel is zero or negative.
    NonPositiveSteps { n: i32 },
    /// The number of indices of a mesh is no multiple of three.
    IndexCount { count: usize },
    /// The index at `position` names a vertex that a buffer of the mesh lacks.
    IndexOutOfRange { position: usize },
}

/// The name of a kind of kernel as it stands in a message.
pub open spec fn kind_label(kind: BooleanKind) -> Seq<char> {
    match kind {
        BooleanKind::Default => "Default"@,
        BooleanKind::Polynomial => "Polynomial"@,
        BooleanKind::CubicPolynomial => "Cubic polynomial"@,
        BooleanKind::Root => "Root"@,
        BooleanKind::Exponential => "Exponential"@,
        BooleanKind::Chamfer => "Chamfer"@,
        BooleanKind::Stairs => "Stairs"@,
    }
}

/// The text that describes a failure to a person.
pub open spec fn message_text(error: Error) -> Seq<char> {
    match error {
        Error::NonPositiveRadius { radius } => "radius should be positive (was "@ + fixed_text(
            radius@,
        ) + ")."@,
        Error::NegativeRadius { radius } => "rounding radius should not be negative (was "@
            + fixed_text(radius@) + ")."@,
        Error::NegativeHeight { height } => "height should not be negative (was "@ + fixed_text(
            height@,
        ) + ")."@,
        Error::ZeroHeight => "Height must be > 0."@,
        Error::ZeroNormal => "Normal must be != 0."@,
        Error::NonPositiveSize { size } => "all dimensions must be greater zero (was "@
            + vec3_text(size@) + ")."@,
        Error::InnerNotSmaller { inner, outer } =>
            "inner radius must be smaller than outer radius (were "@ + fixed_text(inner@)
                + " and "@ + fixed_text(outer@) + ")."@,
        Error::NonPositiveOuter { outer } => "outer radius must be greater than 0 (was "@
            + fixed_text(outer@) + ")."@,
        Error::NegativeCapAngle { angle } => "cap_angle must be positive (was "@ + fixed_text(
            angle@.radians,
        ) + ")!"@,
        Error::CapAngleTooLarge { angle } => "cap_angle must be less equal than pi (was "@
            + fixed_text(angle@.radians) + ")!"@,
        Error::NotOnUnitCircle { sin, cos } =>
            "sine and cosine must lie on the unit circle (were "@ + fixed_text(sin@) + " and "@
                + fixed_text(cos@) + ")."@,
        Error::NonPositiveCell { cell } => "bound must be larger 0 (was "@ + vec3_text(cell@)
            + ")."@,
        Error::EmptyRepeatRange { min, max } => "repeats range must non-negative (was "@
            + whole_vec3_text(min@) + " - "@ + whole_vec3_text(max@) + ")."@,
        Error::ZeroScale { scale } => "no component of a scale may be zero (was "@ + vec3_text(
            scale@,
        ) + ")."@,
        Error::ZeroTwistHeight => "height per rotation must not be zero."@,
        Error::TooFewChildren { got } => "Boolean requires at least 2 children (got only "@
            + nat_text(got as nat) + ")."@,
        Error::NoChildren => "Difference requires at least one child (got none)."@,
        Error::KernelArity { kind, got } => kind_label(kind)
            + " min requires exactly two arguments (got "@ + nat_text(got as nat) + ")."@,
        Error::NegativeSmoothing { kind, k } => blend_stem(kind) + " requires k >= 0.0, got k="@
            + fixed_text(k@) + "."@,
        Error::NonPositiveSteps { n } => "MinStairs requires n > 0, got n="@ + int_text(n as int),
        Error::IndexCount { count } => "indices.len() is not divisible by 3 (was "@ + nat_text(
            count as nat,
        ) + ")."@,
        Error::IndexOutOfRange { position } => "the index at position "@ + nat_text(
            position as nat,
        ) + " names no vertex."@,
    }
}

impl Error {
    /// The text that describes the failure to a person.
    pub fn message(&self) -> (text: String)
        ensures
            text@ == message_text(*self),
    {
        let mut text = String::new();
        match self {
            Error::NonPositiveRadius { radius } => {
                text.append("radius should be positive (was ");
                radius.append_to(&mut text);
                text.append(").");
            },
            Error::NegativeRadius { radius } => {
                text.append("rounding radius should not be negative (was ");
                radius.append_to(&mut text);
                text.append(").");
            },
            Error::NegativeHeight { height } => {
                text.append("height should not be negative (was ");
                height.append_to(&mut text);
                text.append(").");
            },
            Error::ZeroHeight => {
                text.append("Height must be > 0.");
            },
            Error::ZeroNormal => {
                text.append("Normal must be != 0.");
            },
            Error::NonPositiveSize { size } => {
                text.append("all dimensions must be greater zero (was ");
                size.append_to(&mut text);
                text.append(").");
            },
            Error::InnerNotSmaller { inner, outer } => {
                text.append("inner radius must be smaller than outer radius (were ");
                inner.append_to(&mut text);
                text.append(" and ");
                outer.append_to(&mut text);
                text.append(").");
            },
            Error::NonPositiveOuter { outer } => {
                text.append("outer radius must be greater than 0 (was ");
                outer.append_to(&mut text);
                text.append(").");
            },
            Error::NegativeCapAngle { angle } => {
                text.append("cap_angle must be positive (was ");
                angle.radians().append_to(&mut text);
                text.append(")!");
            },
            Error::CapAngleTooLarge { angle } => {
                text.append("cap_angle must be less equal than pi (was ");
                angle.radians().append_to(&mut text);
                text.append(")!");
            },
            Error::NotOnUnitCircle { sin, cos } => {
                text.append("sine and cosine must lie on the unit circle (were ");
                sin.append_to(&mut text);
                text.append(" and ");
                cos.append_to(&mut text);
                text.append(").");
            },
            Error::NonPositiveCell { cell } => {
                text.append("bound must be larger 0 (was ");
                cell.append_to(&mut text);
                text.append(").");
            },
            Error::EmptyRepeatRange { min, max } => {
                text.append("repeats range must non-negative (was ");
                min.append_to(&mut text);
                text.append(" - ");
                max.append_to(&mut text);
                text.append(").");
            },
            Error::ZeroScale { scale } => {
                text.append("no component of a scale may be zero (was ");
                scale.append_to(&mut text);
                text.append(").");
            },
            Error::ZeroTwistHeight => {
                text.append("height per rotation must not be zero.");
            },
            Error::TooFewChildren { got } => {
                text.append("Boolean requires at least 2 children (got only ");
                append_nat(&mut text, *got as u128);
                text.append(").");
            },
            Error::NoChildren => {
                text.append("Difference requires at least one child (got none).");
            },
            Error::KernelArity { kind, got } => {
                text.append(
                    match kind {
                        BooleanKind::Default => "Default",
                        BooleanKind::Polynomial => "Polynomial",
                        BooleanKind::CubicPolynomial => "Cubic polynomial",
                        BooleanKind::Root => "Root",
                        BooleanKind::Exponential => "Exponential",
                        BooleanKind::Chamfer => "Chamfer",
                        BooleanKind::Stairs => "Stairs",
                    },
                );
                text.append(" min requires exactly two arguments (got ");
                append_nat(&mut text, *got as u128);
                text.append(").");
            },
            Error::NegativeSmoothing { kind, k } => {
                text.append(
                    match kind {
                        BooleanKind::Default => "MinDefault",
                        BooleanKind::Polynomial => "MinPolynomial",
                        BooleanKind::CubicPolynomial => "MinCubicPolynomial",
                        BooleanKind::Root => "MinRoot",
                        BooleanKind::Exponential => "MinExponential",
                        BooleanKind::Chamfer => "MinChamfer",
                        BooleanKind::Stairs => "MinStairs",
                    },
                );
                text.append(" requires k >= 0.0, got k=");
                k.append_to(&mut text);
                text.append(".");
            },
            Error::NonPositiveSteps { n } => {
                text.append("MinStairs requires n > 0, got n=");
                append_int(&mut text, *n as i64);
            },
            Error::IndexCount { count } => {
                text.append("indices.len() is not divisible by 3 (was ");
                append_nat(&mut text, *count as u128);
                text.append(").");
            },
            Error::IndexOutOfRange { position } => {
                text.append("the index at position ");
                append_nat(&mut text, *position as u128);
                text.append(" names no vertex.");
            },
        }
        assert(text@ =~= message_text(*self));
        text
    }
}

} // verus!
