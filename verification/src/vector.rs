//! Triples of numbers and three-by-three matrices, with their shader text.

use vstd::prelude::*;
use crate::decimal::{append_int, int_text};
use crate::scalar::{fixed_text, round_div, Scalar};

verus! {

/// The mathematical value of a triple: three integers. For a [`Vec3`] they are
/// unit counts, for an [`IVec3`] whole numbers.
pub struct V3 {
    pub x: int,
    pub y: int,
    pub z: int,
}

/// The mathematical value of a [`Mat3`]: its three columns.
pub struct M3 {
    pub c0: V3,
    pub c1: V3,
    pub c2: V3,
}

/// A triple of numbers: a point, a direction or three extents.
#[derive(Clone, Copy, Debug, PartialEq, Eq)]
pub struct Vec3 {
    pub x: Scalar,
    pub y: Scalar,
    pub z: Scalar,
}

/// A triple of whole numbers.
#[derive(Clone, Copy, Debug, PartialEq, Eq)]
pub struct IVec3 {
    pub x: i32,
    pub y: i32,
    pub z: i32,
}

/// A three-by-three matrix, held by columns.
#[derive(Clone, Copy, Debug, PartialEq, Eq)]
pub struct Mat3 {
    pub c0: Vec3,
    pub c1: Vec3,
    pub c2: Vec3,
}

impl View for Vec3 {
    type V = V3;

    open spec fn view(&self) -> V3 {
        V3 { x: self.x@, y: self.y@, z: self.z@ }
    }
}

impl View for IVec3 {
    type V = V3;

    open spec fn view(&self) -> V3 {
        V3 { x: self.x as int, y: self.y as int, z: self.z as int }
    }
}

impl View for Mat3 {
    type V = M3;

    open spec fn view(&self) -> M3 {
        M3 { c0: self.c0@, c1: self.c1@, c2: self.c2@ }
    }
}

/// The smallest of the three components.
pub open spec fn least(v: V3) -> int {
    if v.x <= v.y && v.x <= v.z {
        v.x
    } else if v.y <= v.z {
        v.y
    } else {
        v.z
    }
}

/// Half of each component, rounded to a whole unit.
pub open spec fn halved(v: V3) -> V3 {
    V3 { x: round_div(v.x, 2), y: round_div(v.y, 2), z: round_div(v.z, 2) }
}

/// The three components as numerals of eight fractional digits, separated by commas.
pub open spec fn components_text(v: V3) -> Seq<char> {
    fixed_text(v.x) + ", "@ + fixed_text(v.y) + ", "@ + fixed_text(v.z)
}

/// `vec3(x, y, z)` with each component as a numeral of eight fractional digits.
pub open spec fn vec3_text(v: V3) -> Seq<char> {
    "vec3("@ + components_text(v) + ")"@
}

/// `vec3(x, y, z)` for whole numbers, each written with eight zeros after the point.
pub open spec fn whole_vec3_text(v: V3) -> Seq<char> {
    "vec3("@ + int_text(v.x) + ".00000000, "@ + int_text(v.y) + ".00000000, "@ + int_text(v.z)
        + ".00000000)"@
}

/// `mat3(..)` with the nine entries column by column, three to a line.
pub open spec fn mat3_text(m: M3) -> Seq<char> {
    "mat3("@ + components_text(m.c0) + ",\n                  "@ + components_text(m.c1)
        + ",\n                  "@ + components_text(m.c2) + ")"@
}

impl Vec3 {
    /// The triple of the three numbers.
    pub fn new(x: Scalar, y: Scalar, z: Scalar) -> (v: Vec3)
        ensures
            v@ == (V3 { x: x@, y: y@, z: z@ }),
    {
        Vec3 { x, y, z }
    }

    /// The smallest of the three components.
    pub fn least(&self) -> (m: Scalar)
        ensures
            m@ == least(self@),
    {
        let x = self.x.units();
        let y = self.y.units();
        let z = self.z.units();
        if x <= y && x <= z {
            self.x
        } else if y <= z {
            self.y
        } else {
            self.z
        }
    }

    /// Half of each component.
    pub fn half(&self) -> (h: Vec3)
        ensures
            h@ == halved(self@),
    {
        Vec3 { x: self.x.half(), y: self.y.half(), z: self.z.half() }
    }

    /// Whether the two triples hold the same numbers.
    pub fn same(&self, other: &Vec3) -> (b: bool)
        ensures
            b == (self@ == other@),
    {
        self.x.units() == other.x.units() && self.y.units() == other.y.units() && self.z.units()
            == other.z.units()
    }

    /// The three components as numerals, separated by commas.
    pub fn components(&self) -> (s: String)
        ensures
            s@ == components_text(self@),
    {
        let mut s = String::new();
        self.x.append_to(&mut s);
        s.append(", ");
        self.y.append_to(&mut s);
        s.append(", ");
        self.z.append_to(&mut s);
        assert(s@ =~= components_text(self@));
        s
    }

    /// Appends `vec3(x, y, z)` to `out`.
    pub fn append_to(&self, out: &mut String)
        ensures
            final(out)@ == old(out)@ + vec3_text(self@),
    {
        let inner = self.components();
        out.append("vec3(");
        out.append(inner.as_str());
        out.append(")");
        assert(out@ =~= old(out)@ + vec3_text(self@));
    }
}

impl IVec3 {
    /// The triple of the three whole numbers.
    pub fn new(x: i32, y: i32, z: i32) -> (v: IVec3)
        ensures
            v@ == (V3 { x: x as int, y: y as int, z: z as int }),
    {
        IVec3 { x, y, z }
    }

    /// Appends `vec3(x, y, z)` to `out`, each whole number written as a
    /// numeral of eight fractional digits.
    pub fn append_to(&self, out: &mut String)
        ensures
            final(out)@ == old(out)@ + whole_vec3_text(self@),
    {
        out.append("vec3(");
        append_int(out, self.x as i64);
        out.append(".00000000, ");
        append_int(out, self.y as i64);
        out.append(".00000000, ");
        append_int(out, self.z as i64);
        out.append(".00000000)");
        assert(out@ =~= old(out)@ + whole_vec3_text(self@));
    }
}

impl Mat3 {
    /// Appends `mat3(..)` to `out`.
    pub fn append_to(&self, out: &mut String)
        ensures
            final(out)@ == old(out)@ + mat3_text(self@),
    {
        let first = self.c0.components();
        let second = self.c1.components();
        let third = self.c2.components();
        out.append("mat3(");
        out.append(first.as_str());
        out.append(",\n                  ");
        out.append(second.as_str());
        out.append(",\n                  ");
        out.append(third.as_str());
        out.append(")");
        assert(out@ =~= old(out)@ + mat3_text(self@));
    }
}

/// The shader text of a triple.
pub fn shader_vec3(v: &Vec3) -> (s: String)
    ensures
        s@ == vec3_text(v@),
{
    let mut s = String::new();
    v.append_to(&mut s);
    assert(s@ =~= vec3_text(v@));
    s
}

/// The shader text of a matrix.
pub fn shader_mat3(m: &Mat3) -> (s: String)
    ensures
        s@ == mat3_text(m@),
{
    let mut s = String::new();
    m.append_to(&mut s);
    assert(s@ =~= mat3_text(m@));
    s
}

} // verus!
