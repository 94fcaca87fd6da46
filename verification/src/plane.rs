//! The plane.

use vstd::prelude::*;
use crate::error::Error;
use crate::primitive::{compiled, shape_of, Primitive};
use crate::scalar::{
    div_round, fixed_div, floor_sqrt, in_range, is_floor_sqrt, isqrt, lemma_floor_sqrt_exists,
    lemma_round_div_nat_limit, lemma_round_div_nearest, magnitude, Scalar,
};
use crate::shader::compile;
use crate::shape::Shape;
use crate::vector::{Vec3, V3};

verus! {

/// The sum of the squares of the components.
pub open spec fn sum_squares(v: V3) -> nat {
    (v.x * v.x + v.y * v.y + v.z * v.z) as nat
}

/// The largest magnitude among the components.
pub open spec fn largest_magnitude(v: V3) -> nat {
    let x = magnitude(v.x);
    let y = magnitude(v.y);
    let z = magnitude(v.z);
    if x >= y && x >= z {
        x
    } else if y >= z {
        y
    } else {
        z
    }
}

/// The vector multiplied by the largest whole number that keeps every
/// component within `10^18` units: the same direction, long enough for its
/// length to be taken without a loss that shows.
pub open spec fn stretched(v: V3) -> V3 {
    let f = 1_000_000_000_000_000_000int / (largest_magnitude(v) as int);
    V3 { x: v.x * f, y: v.y * f, z: v.z * f }
}

/// The vector divided by its length: each component of the stretched vector
/// over the length of the stretched vector, rounded to a whole unit.
pub open spec fn normalized(v: V3) -> V3 {
    let s = stretched(v);
    let n = floor_sqrt(sum_squares(s)) as int;
    V3 { x: fixed_div(s.x, n), y: fixed_div(s.y, n), z: fixed_div(s.z, n) }
}

/// Whether a vector is of length one: whether the sum of the squares of its
/// components is one, to within `10^-7`.
pub open spec fn unit_length(v: V3) -> bool {
    10_000_000_000_000_000 - 1_000_000_000 <= sum_squares(v) <= 10_000_000_000_000_000
        + 1_000_000_000
}

/// A component of a vector is no longer than the vector.
proof fn lemma_component_bound(c: int, rest: nat, n: nat)
    requires
        is_floor_sqrt(n, (c * c + rest) as nat),
    ensures
        magnitude(c) <= n,
        magnitude(c * 100_000_000) <= 100_000_000 * n,
{
    let m = magnitude(c);
    assert(m * m == c * c) by (nonlinear_arith)
        requires
            m == c || m == -c,
    ;
    if m > n {
        assert(m * m >= (n + 1) * (n + 1)) by (nonlinear_arith)
            requires
                m >= n + 1,
        ;
    }
}

/// A component stays within `10^18` units when the vector is stretched.
proof fn lemma_stretched_component(c: int, m: nat)
    requires
        0 < m <= 1_000_000_000_000_000_000,
        magnitude(c) <= m,
    ensures
        magnitude(c * (1_000_000_000_000_000_000int / (m as int))) <= 1_000_000_000_000_000_000,
        magnitude(c) == m ==> 2 * magnitude(c * (1_000_000_000_000_000_000int / (m as int)))
            > 1_000_000_000_000_000_000,
        c == 0 ==> c * (1_000_000_000_000_000_000int / (m as int)) == 0,
{
    let big: int = 1_000_000_000_000_000_000;
    let f = big / (m as int);
    let r = big % (m as int);
    assert(big == (m as int) * f + r && 0 <= r < m) by {
        vstd::arithmetic::div_mod::lemma_fundamental_div_mod(big, m as int);
        vstd::arithmetic::div_mod::lemma_mod_bound(big, m as int);
    }
    assert(f >= 1) by (nonlinear_arith)
        requires
            big == (m as int) * f + r,
            0 <= r < m,
            m <= big,
    ;
    let a = magnitude(c) as int;
    assert(a * f <= (m as int) * f) by (nonlinear_arith)
        requires
            a <= m,
            f >= 0,
    ;
    assert((m as int) * f >= m) by (nonlinear_arith)
        requires
            f >= 1,
            m > 0,
    ;
    assert(magnitude(c * f) == a * f) by (nonlinear_arith)
        requires
            f >= 0,
            a == (if c < 0 {
                -c
            } else {
                c
            }),
            magnitude(c * f) == (if c * f < 0 {
                -(c * f)
            } else {
                c * f
            }),
    ;
}

/// The parts of each component of the square of the length after division.
proof fn lemma_divided_component(x: int, n: int, u: int) -> (parts: (int, int))
    requires
        n > 0,
        -n <= x <= n,
        -n <= 2 * (u * n - x * 100_000_000) <= n,
    ensures
        n * n * (u * u) == (x * x) * 10_000_000_000_000_000 + 100_000_000 * parts.0 + parts.1,
        -(n * n) <= parts.0 <= n * n,
        0 <= 4 * parts.1 <= n * n,
{
    let e = u * n - x * 100_000_000;
    let w = u * n;
    assert(n * n * (u * u) == w * w) by (nonlinear_arith)
        requires
            w == u * n,
    ;
    assert(w * w == (x * x) * 10_000_000_000_000_000 + 100_000_000 * (2 * x * e) + e * e)
        by (nonlinear_arith)
        requires
            w == x * 100_000_000 + e,
    ;
    assert(-(n * n) <= 2 * x * e <= n * n) by (nonlinear_arith)
        requires
            -n <= x <= n,
            -n <= 2 * e <= n,
    ;
    assert(0 <= 4 * (e * e) <= n * n) by (nonlinear_arith)
        requires
            -n <= 2 * e <= n,
    ;
    (2 * x * e, e * e)
}

/// A long vector divided by its length is of length one: that the length and
/// the components are rounded to whole units changes the sum of the squares
/// by less than `10^-7`.
proof fn lemma_divided_is_unit(x: int, y: int, z: int, n: nat)
    requires
        is_floor_sqrt(n, (x * x + y * y + z * z) as nat),
        n >= 100_000_000,
    ensures
        unit_length(V3 { x: fixed_div(x, n as int), y: fixed_div(y, n as int), z: fixed_div(z, n as int) }),
        magnitude(fixed_div(x, n as int)) <= 100_000_000,
        magnitude(fixed_div(y, n as int)) <= 100_000_000,
        magnitude(fixed_div(z, n as int)) <= 100_000_000,
{
    let m = n as int;
    let ux = fixed_div(x, m);
    let uy = fixed_div(y, m);
    let uz = fixed_div(z, m);
    assert(x * x >= 0 && y * y >= 0 && z * z >= 0) by (nonlinear_arith);
    lemma_component_bound(x, (y * y + z * z) as nat, n);
    lemma_component_bound(y, (x * x + z * z) as nat, n);
    lemma_component_bound(z, (x * x + y * y) as nat, n);
    lemma_round_div_nat_limit(magnitude(x * 100_000_000), n, 100_000_000);
    lemma_round_div_nat_limit(magnitude(y * 100_000_000), n, 100_000_000);
    lemma_round_div_nat_limit(magnitude(z * 100_000_000), n, 100_000_000);
    lemma_round_div_nearest(x * 100_000_000, m);
    lemma_round_div_nearest(y * 100_000_000, m);
    lemma_round_div_nearest(z * 100_000_000, m);
    let px = lemma_divided_component(x, m, ux);
    let py = lemma_divided_component(y, m, uy);
    let pz = lemma_divided_component(z, m, uz);
    let a = m * m;
    let s = x * x + y * y + z * z;
    let u = ux * ux + uy * uy + uz * uz;
    assert(ux * ux >= 0 && uy * uy >= 0 && uz * uz >= 0) by (nonlinear_arith);
    assert(a * u == a * (ux * ux) + a * (uy * uy) + a * (uz * uz)) by (nonlinear_arith)
        requires
            u == ux * ux + uy * uy + uz * uz,
    ;
    assert((m + 1) * (m + 1) == a + 2 * m + 1) by (nonlinear_arith)
        requires
            a == m * m,
    ;
    assert(m * 100_000_000 <= a) by (nonlinear_arith)
        requires
            a == m * m,
            m >= 100_000_000,
    ;
    assert(a == n * n && (n + 1) * (n + 1) == a + 2 * m + 1) by (nonlinear_arith)
        requires
            a == m * m,
            m == n,
    ;
    assert(a <= s <= a + 2 * m);
    assert(a * u == s * 10_000_000_000_000_000 + 100_000_000 * (px.0 + py.0 + pz.0) + (px.1
        + py.1 + pz.1));
    let t = a * u;
    assert(s * 10_000_000_000_000_000 <= a * 10_000_000_000_000_000 + m
        * 20_000_000_000_000_000);
    assert(m * 20_000_000_000_000_000 <= a * 200_000_000);
    assert(100_000_000 * (px.0 + py.0 + pz.0) <= a * 300_000_000);
    assert(px.1 + py.1 + pz.1 <= a);
    assert(t <= a * 10_000_000_000_000_000 + a * 500_000_001);
    assert(t >= a * 10_000_000_000_000_000 - a * 300_000_000);
    assert(a * u <= a * (10_000_000_000_000_000 + 500_000_001)) by (nonlinear_arith)
        requires
            a * u <= a * 10_000_000_000_000_000 + a * 500_000_001,
    ;
    assert(a * u >= a * (10_000_000_000_000_000 - 300_000_000)) by (nonlinear_arith)
        requires
            a * u >= a * 10_000_000_000_000_000 - a * 300_000_000,
    ;
    assert(u <= 10_000_000_000_000_000 + 500_000_001) by (nonlinear_arith)
        requires
            a * u <= a * (10_000_000_000_000_000 + 500_000_001),
            a > 0,
    ;
    assert(u >= 10_000_000_000_000_000 - 300_000_000) by (nonlinear_arith)
        requires
            a * u >= a * (10_000_000_000_000_000 - 300_000_000),
            a > 0,
    ;
}

/// What holds of a vector that is not zero once it is stretched: its
/// components are within `10^18` units, and its length is at least half that.
proof fn lemma_stretched(v: V3, n: nat)
    requires
        in_range(v.x) && in_range(v.y) && in_range(v.z),
        largest_magnitude(v) > 0,
        is_floor_sqrt(n, sum_squares(stretched(v))),
    ensures
        magnitude(stretched(v).x) <= 1_000_000_000_000_000_000,
        magnitude(stretched(v).y) <= 1_000_000_000_000_000_000,
        magnitude(stretched(v).z) <= 1_000_000_000_000_000_000,
        n >= 100_000_000,
{
    let m = largest_magnitude(v);
    let s = stretched(v);
    lemma_stretched_component(v.x, m);
    lemma_stretched_component(v.y, m);
    lemma_stretched_component(v.z, m);
    assert(s.x * s.x >= 0 && s.y * s.y >= 0 && s.z * s.z >= 0) by (nonlinear_arith);
    lemma_component_bound(s.x, (s.y * s.y + s.z * s.z) as nat, n);
    lemma_component_bound(s.y, (s.x * s.x + s.z * s.z) as nat, n);
    lemma_component_bound(s.z, (s.x * s.x + s.y * s.y) as nat, n);
}

/// Every vector but the zero vector is brought to length one.
pub proof fn lemma_normalized_is_unit(v: V3)
    requires
        in_range(v.x) && in_range(v.y) && in_range(v.z),
        v != (V3 { x: 0, y: 0, z: 0 }),
    ensures
        unit_length(normalized(v)),
{
    let s = stretched(v);
    let n = floor_sqrt(sum_squares(s));
    lemma_floor_sqrt_exists(sum_squares(s));
    lemma_stretched(v, n);
    lemma_divided_is_unit(s.x, s.y, s.z, n);
}

/// The half space on one side of a plane. Its distance at `p` is
/// `dot(p, normal) + d`, with the normal of length one.
#[derive(Clone, Copy, Debug)]
pub struct Plane {
    normal: Vec3,
    d: Scalar,
}

impl View for Plane {
    type V = Shape;

    closed spec fn view(&self) -> Shape {
        Shape::Plane { normal: self.normal@, d: self.d@ }
    }
}

impl Plane {
    #[verifier::type_invariant]
    spec fn normal_of_length_one(self) -> bool {
        unit_length(self.normal@)
    }

    /// The plane with the given normal at the offset `d`. The normal is
    /// brought to length one, whatever its length, and must not be the zero
    /// vector.
    pub fn new(normal: Vec3, d: Scalar) -> (r: Result<Primitive, Error>)
        ensures
            shape_of(r) == (if normal@ == (V3 { x: 0, y: 0, z: 0 }) {
                Err::<Shape, Error>(Error::ZeroNormal)
            } else {
                Ok(Shape::Plane { normal: normalized(normal@), d: d@ })
            }),
            normal@ != (V3 { x: 0, y: 0, z: 0 }) ==> unit_length(normalized(normal@)),
    {
        let x: i128 = normal.x.units() as i128;
        let y: i128 = normal.y.units() as i128;
        let z: i128 = normal.z.units() as i128;
        let ax: i128 = if x < 0 {
            -x
        } else {
            x
        };
        let ay: i128 = if y < 0 {
            -y
        } else {
            y
        };
        let az: i128 = if z < 0 {
            -z
        } else {
            z
        };
        let m: i128 = if ax >= ay && ax >= az {
            ax
        } else if ay >= az {
            ay
        } else {
            az
        };
        if m == 0 {
            return Err(Error::ZeroNormal);
        }
        let f: i128 = 1_000_000_000_000_000_000 / m;
        proof {
            lemma_stretched_component(x as int, m as nat);
            lemma_stretched_component(y as int, m as nat);
            lemma_stretched_component(z as int, m as nat);
        }
        let sx: i128 = x * f;
        let sy: i128 = y * f;
        let sz: i128 = z * f;
        proof {
            assert(0 <= sx * sx <= 1_000_000_000_000_000_000_000_000_000_000_000_000)
                by (nonlinear_arith)
                requires
                    -1_000_000_000_000_000_000 <= sx <= 1_000_000_000_000_000_000,
            ;
            assert(0 <= sy * sy <= 1_000_000_000_000_000_000_000_000_000_000_000_000)
                by (nonlinear_arith)
                requires
                    -1_000_000_000_000_000_000 <= sy <= 1_000_000_000_000_000_000,
            ;
            assert(0 <= sz * sz <= 1_000_000_000_000_000_000_000_000_000_000_000_000)
                by (nonlinear_arith)
                requires
                    -1_000_000_000_000_000_000 <= sz <= 1_000_000_000_000_000_000,
            ;
        }
        let sum: u128 = (sx * sx + sy * sy + sz * sz) as u128;
        let n: u128 = isqrt(sum);
        proof {
            assert(stretched(normal@) == (V3 { x: sx as int, y: sy as int, z: sz as int }));
            lemma_stretched(normal@, n as nat);
            lemma_divided_is_unit(sx as int, sy as int, sz as int, n as nat);
        }
        let unit = Vec3 {
            x: Scalar::from_wide(div_round(sx * 100_000_000, n as i128)),
            y: Scalar::from_wide(div_round(sy * 100_000_000, n as i128)),
            z: Scalar::from_wide(div_round(sz * 100_000_000, n as i128)),
        };
        Ok(Primitive::Plane(Plane { normal: unit, d }))
    }

    /// The normal, of length one.
    pub fn normal(&self) -> (normal: Vec3)
        ensures
            self@ is Plane,
            self@->Plane_normal == normal@,
            unit_length(normal@),
    {
        proof {
            use_type_invariant(self);
        }
        self.normal
    }

    /// The offset along the normal.
    pub fn d(&self) -> (d: Scalar)
        ensures
            self@ is Plane,
            self@->Plane_d == d@,
    {
        self.d
    }

    /// The shader expression of the distance at the point `p`. A plane needs no
    /// helper function.
    pub fn expression(&self, p: &str, shared_code: &mut Vec<String>) -> (expr: String)
        ensures
            compiled(expr, *final(shared_code)) == compile(
                self@,
                p@,
                old(shared_code).deep_view(),
            ),
    {
        let mut expr = String::from_str("dot(");
        expr.append(p);
        expr.append(", ");
        self.normal.append_to(&mut expr);
        expr.append(") + ");
        self.d.append_to(&mut expr);
        expr
    }
}

} // verus!
