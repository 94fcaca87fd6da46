//! Decimal fixed-point numbers with eight fractional digits.
//!
//! Every number that a shape holds is a whole count of units of `10^-8`, which is
//! the precision of the numerals in the shader source. Arithmetic on them is
//! integer arithmetic with an explicit rounding rule.

use vstd::prelude::*;
use crate::decimal::{append_nat, append_padded, nat_text, padded_text};

verus! {

/// Units in the number one.
pub const UNITS_PER_ONE: i64 = 100_000_000;

/// The largest magnitude of a [`Scalar`], in units: the number `10^10`.
pub const MAX_UNITS: i64 = 1_000_000_000_000_000_000;

/// Whether `units` is the unit count of some [`Scalar`].
pub open spec fn in_range(units: int) -> bool {
    -MAX_UNITS <= units <= MAX_UNITS
}

/// The absolute value of an integer.
pub open spec fn magnitude(n: int) -> nat {
    if n < 0 {
        (-n) as nat
    } else {
        n as nat
    }
}

/// `m / d` rounded to the nearest integer, a tie going to the even neighbour.
pub open spec fn round_div_nat(m: nat, d: nat) -> nat
    recommends
        d > 0,
{
    let q = m / d;
    let r = m % d;
    if 2 * r < d {
        q
    } else if 2 * r > d {
        q + 1
    } else if q % 2 == 0 {
        q
    } else {
        q + 1
    }
}

/// `n / d` rounded to the nearest integer, a tie going to the even neighbour.
/// Rounding is symmetric about zero.
pub open spec fn round_div(n: int, d: int) -> int
    recommends
        d != 0,
{
    let q = round_div_nat(magnitude(n), magnitude(d)) as int;
    if (n < 0) != (d < 0) {
        -q
    } else {
        q
    }
}

/// The product of two unit counts, as a unit count.
pub open spec fn fixed_mul(a: int, b: int) -> int {
    round_div(a * b, UNITS_PER_ONE as int)
}

/// The quotient of two unit counts, as a unit count.
pub open spec fn fixed_div(a: int, b: int) -> int
    recommends
        b != 0,
{
    round_div(a * UNITS_PER_ONE, b)
}

/// The numeral of a unit count: an optional minus sign, the whole part, a
/// point, and exactly eight fractional digits.
pub open spec fn fixed_text(units: int) -> Seq<char> {
    let m = magnitude(units);
    let sign = if units < 0 {
        seq!['-']
    } else {
        Seq::<char>::empty()
    };
    sign + nat_text(m / 100_000_000) + seq!['.'] + padded_text(m % 100_000_000, 8)
}

/// The rounded quotient is at most the dividend (for a divisor of at least one).
pub proof fn lemma_round_div_nat_bound(m: nat, d: nat)
    requires
        d > 0,
    ensures
        round_div_nat(m, d) <= m,
        d >= 2 ==> 2 * round_div_nat(m, d) <= m + 1,
{
    let q = m / d;
    let r = m % d;
    assert(m == d * q + r) by {
        vstd::arithmetic::div_mod::lemma_fundamental_div_mod(m as int, d as int);
    }
    assert(0 <= r < d) by {
        vstd::arithmetic::div_mod::lemma_mod_bound(m as int, d as int);
    }
    assert(q >= 0) by {
        vstd::arithmetic::div_mod::lemma_div_pos_is_pos(m as int, d as int);
    }
    if q == 0 {
        if d == 1 {
            assert(r == 0);
        }
    } else {
        assert(d * q >= d) by (nonlinear_arith)
            requires
                q >= 1,
                d > 0,
        ;
        if d >= 2 {
            assert(d * q >= 2 * q) by (nonlinear_arith)
                requires
                    d >= 2,
                    q >= 0,
            ;
        }
        if d == 1 {
            assert(r == 0);
        }
    }
}

/// The rounded quotient is a nearest integer to the exact one: it is off by no
/// more than half.
pub proof fn lemma_round_div_nat_nearest(m: nat, d: nat)
    requires
        d > 0,
    ensures
        -d <= 2 * (round_div_nat(m, d) * d - m) <= d,
{
    let q = m / d;
    let r = m % d;
    assert(m == d * q + r) by {
        vstd::arithmetic::div_mod::lemma_fundamental_div_mod(m as int, d as int);
    }
    assert(0 <= r < d) by {
        vstd::arithmetic::div_mod::lemma_mod_bound(m as int, d as int);
    }
    assert((q + 1) * d == q * d + d) by (nonlinear_arith);
    assert(q * d == d * q) by (nonlinear_arith);
}

/// The rounded quotient of a signed dividend is a nearest integer to the exact
/// one: it is off by no more than half.
pub proof fn lemma_round_div_nearest(a: int, d: int)
    requires
        d > 0,
    ensures
        -d <= 2 * (round_div(a, d) * d - a) <= d,
{
    let r = round_div_nat(magnitude(a), magnitude(d));
    lemma_round_div_nat_nearest(magnitude(a), magnitude(d));
    if a < 0 {
        assert((-r) * d == -(r * d)) by (nonlinear_arith);
    }
}

/// A rounded quotient does not exceed a limit that the exact quotient keeps.
pub proof fn lemma_round_div_nat_limit(m: nat, d: nat, limit: nat)
    requires
        d > 0,
        m <= limit * d,
    ensures
        round_div_nat(m, d) <= limit,
{
    let q = m / d;
    let r = m % d;
    assert(m == d * q + r) by {
        vstd::arithmetic::div_mod::lemma_fundamental_div_mod(m as int, d as int);
    }
    assert(0 <= r < d) by {
        vstd::arithmetic::div_mod::lemma_mod_bound(m as int, d as int);
    }
    assert(q >= 0) by {
        vstd::arithmetic::div_mod::lemma_div_pos_is_pos(m as int, d as int);
    }
    if q > limit {
        assert(d * q >= d * (limit + 1)) by (nonlinear_arith)
            requires
                q >= limit + 1,
                d > 0,
        ;
        assert(d * (limit + 1) == limit * d + d) by (nonlinear_arith);
    }
    if q == limit {
        assert(d * q == limit * d) by (nonlinear_arith)
            requires
                q == limit,
        ;
    }
}

/// The magnitude of a rounded quotient is at most that of the dividend.
pub proof fn lemma_round_div_bound(n: int, d: int)
    requires
        d != 0,
    ensures
        magnitude(round_div(n, d)) <= magnitude(n),
        magnitude(round_div(n, d)) == round_div_nat(magnitude(n), magnitude(d)),
{
    lemma_round_div_nat_bound(magnitude(n), magnitude(d));
}

/// Rounded division of wide integers.
pub fn div_round(n: i128, d: i128) -> (q: i128)
    requires
        d != 0,
        -0x4000_0000_0000_0000_0000_0000_0000_0000 < n < 0x4000_0000_0000_0000_0000_0000_0000_0000,
        -0x4000_0000_0000_0000_0000_0000_0000_0000 < d < 0x4000_0000_0000_0000_0000_0000_0000_0000,
    ensures
        q == round_div(n as int, d as int),
{
    let m: i128 = if n < 0 {
        -n
    } else {
        n
    };
    let e: i128 = if d < 0 {
        -d
    } else {
        d
    };
    let q0: i128 = m / e;
    let r: i128 = m % e;
    proof {
        lemma_round_div_nat_bound(m as nat, e as nat);
        vstd::arithmetic::div_mod::lemma_mod_bound(m as int, e as int);
    }
    let up: bool = if 2 * r < e {
        false
    } else if 2 * r > e {
        true
    } else {
        q0 % 2 != 0
    };
    let qm: i128 = if up {
        q0 + 1
    } else {
        q0
    };
    if (n < 0) != (d < 0) {
        -qm
    } else {
        qm
    }
}

/// Whether `r` is the square root of `n` rounded down.
pub open spec fn is_floor_sqrt(r: nat, n: nat) -> bool {
    r * r <= n < (r + 1) * (r + 1)
}

/// The square root of `n`, rounded down.
pub open spec fn floor_sqrt(n: nat) -> nat {
    choose|r: nat| is_floor_sqrt(r, n)
}

/// Every number has a rounded-down square root.
pub proof fn lemma_floor_sqrt_exists(n: nat)
    ensures
        is_floor_sqrt(floor_sqrt(n), n),
    decreases n,
{
    if n == 0 {
        assert(is_floor_sqrt(0, 0)) by (nonlinear_arith);
    } else {
        lemma_floor_sqrt_exists((n - 1) as nat);
        let r = floor_sqrt((n - 1) as nat);
        if n < (r + 1) * (r + 1) {
            assert(is_floor_sqrt(r, n));
        } else {
            assert((r + 2) * (r + 2) > (r + 1) * (r + 1)) by (nonlinear_arith);
            assert(is_floor_sqrt(r + 1, n));
        }
    }
}

/// There is only one rounded-down square root.
pub proof fn lemma_floor_sqrt_unique(r: nat, n: nat)
    requires
        is_floor_sqrt(r, n),
    ensures
        floor_sqrt(n) == r,
{
    let s = floor_sqrt(n);
    assert(is_floor_sqrt(s, n));
    if s < r {
        assert((s + 1) * (s + 1) <= r * r) by (nonlinear_arith)
            requires
                s + 1 <= r,
        ;
    }
    if r < s {
        assert((r + 1) * (r + 1) <= s * s) by (nonlinear_arith)
            requires
                r + 1 <= s,
        ;
    }
}

/// The square root of `n`, rounded down.
pub fn isqrt(n: u128) -> (r: u128)
    requires
        n < 0x4000_0000_0000_0000_0000_0000_0000_0000,
    ensures
        r == floor_sqrt(n as nat),
        is_floor_sqrt(r as nat, n as nat),
        r < 0x8000_0000_0000_0000,
{
    let mut lo: u128 = 0;
    let mut hi: u128 = 0x8000_0000_0000_0000;
    assert(0x8000_0000_0000_0000u128 * 0x8000_0000_0000_0000u128
        == 0x4000_0000_0000_0000_0000_0000_0000_0000u128) by (nonlinear_arith);
    while hi - lo > 1
        invariant
            lo < hi <= 0x8000_0000_0000_0000,
            lo * lo <= n < hi * hi,
        decreases hi - lo,
    {
        let mid: u128 = lo + (hi - lo) / 2;
        assert(mid * mid < 0x4000_0000_0000_0000_0000_0000_0000_0000) by (nonlinear_arith)
            requires
                mid < 0x8000_0000_0000_0000,
        ;
        if mid * mid <= n {
            lo = mid;
        } else {
            hi = mid;
        }
    }
    proof {
        assert(hi == lo + 1);
        lemma_floor_sqrt_unique(lo as nat, n as nat);
    }
    lo
}

/// A decimal fixed-point number: a whole count of units of `10^-8`, of
/// magnitude at most `10^10`.
#[derive(Clone, Copy, Debug, PartialEq, Eq)]
pub struct Scalar {
    units: i64,
}

impl View for Scalar {
    type V = int;

    /// The number, in units of `10^-8`.
    closed spec fn view(&self) -> int {
        self.units as int
    }
}

impl Scalar {
    #[verifier::type_invariant]
    spec fn within_limits(self) -> bool {
        in_range(self.units as int)
    }

    /// The number of `units` units of `10^-8`, if it is within the limits.
    pub fn from_units(units: i64) -> (r: Option<Scalar>)
        ensures
            in_range(units as int) ==> r is Some && r->0@ == units,
            !in_range(units as int) ==> r is None,
    {
        if -MAX_UNITS <= units && units <= MAX_UNITS {
            Some(Scalar { units })
        } else {
            None
        }
    }

    /// The number of `units` units of `10^-8`.
    pub(crate) fn from_wide(units: i128) -> (r: Scalar)
        requires
            in_range(units as int),
        ensures
            r@ == units,
    {
        Scalar { units: units as i64 }
    }

    /// A whole number.
    pub fn from_int(n: i32) -> (r: Scalar)
        ensures
            r@ == n * UNITS_PER_ONE,
    {
        let wide: i64 = n as i64;
        Scalar { units: wide * UNITS_PER_ONE }
    }

    /// The number zero.
    pub fn zero() -> (r: Scalar)
        ensures
            r@ == 0,
    {
        Scalar { units: 0 }
    }

    /// The number, in units of `10^-8`.
    pub fn units(&self) -> (u: i64)
        ensures
            u == self@,
            in_range(u as int),
    {
        proof {
            use_type_invariant(self);
        }
        self.units
    }

    /// The number with its sign changed.
    pub fn neg(&self) -> (r: Scalar)
        ensures
            r@ == -self@,
    {
        proof {
            use_type_invariant(self);
        }
        Scalar { units: -self.units }
    }

    /// The absolute value.
    pub fn abs(&self) -> (r: Scalar)
        ensures
            r@ == magnitude(self@),
    {
        proof {
            use_type_invariant(self);
        }
        if self.units < 0 {
            Scalar { units: -self.units }
        } else {
            *self
        }
    }

    /// Half of the number, rounded to a whole unit.
    pub fn half(&self) -> (r: Scalar)
        ensures
            r@ == round_div(self@, 2),
    {
        let u: i128 = self.units() as i128;
        proof {
            lemma_round_div_bound(u as int, 2);
        }
        Scalar::from_wide(div_round(u, 2))
    }

    /// Appends the numeral of the number to `out`.
    pub fn append_to(&self, out: &mut String)
        ensures
            final(out)@ == old(out)@ + fixed_text(self@),
    {
        let u: i64 = self.units();
        let m: u128 = if u < 0 {
            proof {
                reveal_strlit("-");
            }
            out.append("-");
            (-(u as i128)) as u128
        } else {
            u as u128
        };
        append_nat(out, m / 100_000_000);
        proof {
            reveal_strlit(".");
        }
        out.append(".");
        append_padded(out, m % 100_000_000, 8);
        assert(out@ =~= old(out)@ + fixed_text(self@));
    }

    /// The numeral of the number, with eight fractional digits.
    pub fn text(&self) -> (s: String)
        ensures
            s@ == fixed_text(self@),
    {
        let mut s = String::new();
        self.append_to(&mut s);
        assert(s@ =~= fixed_text(self@));
        s
    }
}

} // verus!
