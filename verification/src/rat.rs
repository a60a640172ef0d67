//! Exact rational values and the tolerance comparator that decides whether
//! two values are close enough.

use vstd::prelude::*;
use vstd::math::abs;

verus! {

/// Magnitude bound on the numerator and denominator of values handed to the
/// conversion table. It leaves room in `i128` for the largest coefficient of
/// any conversion formula.
pub const RANGE_BOUND: i128 = 10_000_000_000_000_000_000_000_000_000;

/// A rational number `num / den`. Well-formed values have `den > 0`; the
/// fraction need not be in lowest terms, and equality of values is the
/// cross-multiplied equality [`Rat::same_value`].
#[derive(Clone, Copy, PartialEq, Eq, Structural, Debug)]
pub struct Rat {
    pub num: i128,
    pub den: i128,
}

impl Rat {
    /// A well-formed rational has a positive denominator.
    pub open spec fn wf(self) -> bool {
        self.den > 0
    }

    /// Small enough to pass through any conversion formula without
    /// overflowing `i128`.
    pub open spec fn in_range(self) -> bool {
        &&& -RANGE_BOUND <= self.num <= RANGE_BOUND
        &&& 0 < self.den <= RANGE_BOUND
    }

    /// `self` and `other` denote the same rational value.
    pub open spec fn same_value(self, other: Rat) -> bool {
        self.num * other.den == other.num * self.den
    }
}

/// `|an/ad - bn/bd| <= tn/td`, stated over the cross-multiplied integers
/// (for `ad, bd, td > 0`).
pub open spec fn close_val(an: int, ad: int, bn: int, bd: int, tn: int, td: int) -> bool {
    abs(an * bd - bn * ad) * td <= tn * (ad * bd)
}

/// `|a - b| <= eps`.
pub open spec fn close_spec(a: Rat, b: Rat, eps: Rat) -> bool {
    close_val(a.num as int, a.den as int, b.num as int, b.den as int, eps.num as int, eps.den as int)
}

/// The tolerance for grading a single conversion: 0.005.
pub fn single_conversion_tolerance() -> (r: Rat)
    ensures
        r.num == 5,
        r.den == 1000,
{
    Rat { num: 5, den: 1000 }
}

/// The looser tolerance for round-trip (convert-and-back) comparisons: 0.1.
/// Two lossy multiplications compound error, so round trips are held to this
/// bound rather than to the single-conversion one.
pub fn round_trip_tolerance() -> (r: Rat)
    ensures
        r.num == 1,
        r.den == 10,
{
    Rat { num: 1, den: 10 }
}

/// Decides whether `a` and `b` are within `eps` of each other:
/// `|a - b| <= eps`, computed exactly. The bounds in the `requires` keep
/// every intermediate product inside `i128`.
pub fn close(a: Rat, b: Rat, eps: Rat) -> (r: bool)
    requires
        a.wf(),
        b.wf(),
        eps.wf(),
        eps.num >= 0,
        (abs(a.num as int) * b.den + abs(b.num as int) * a.den) * eps.den <= i128::MAX,
        eps.num * a.den * b.den <= i128::MAX,
    ensures
        r == close_spec(a, b, eps),
{
    proof {
        let p = abs(a.num as int);
        let q = abs(b.num as int);
        let t1 = p * b.den;
        let t2 = q * a.den;
        assert(t1 >= 0 && -t1 <= a.num * b.den <= t1) by (nonlinear_arith)
            requires
                p >= 0,
                -p <= a.num <= p,
                b.den > 0,
                t1 == p * b.den,
        ;
        assert(t2 >= 0 && -t2 <= b.num * a.den <= t2) by (nonlinear_arith)
            requires
                q >= 0,
                -q <= b.num <= q,
                a.den > 0,
                t2 == q * a.den,
        ;
        assert(t1 + t2 <= (t1 + t2) * eps.den) by (nonlinear_arith)
            requires
                eps.den >= 1,
                t1 + t2 >= 0,
        ;
    }
    let x = a.num * b.den;
    let y = b.num * a.den;
    let diff = if x >= y { x - y } else { y - x };
    proof {
        let t = abs(a.num as int) * b.den + abs(b.num as int) * a.den;
        assert(diff * eps.den <= t * eps.den) by (nonlinear_arith)
            requires
                0 <= diff <= t,
                eps.den >= 1,
        ;
        assert(eps.num * a.den >= 0 && eps.num * a.den <= (eps.num * a.den) * b.den
            && (eps.num * a.den) * b.den == eps.num * (a.den * b.den)) by (nonlinear_arith)
            requires
                eps.num >= 0,
                a.den > 0,
                b.den >= 1,
        ;
    }
    let lhs = diff * eps.den;
    let rhs = (eps.num * a.den) * b.den;
    lhs <= rhs
}

} // verus!
