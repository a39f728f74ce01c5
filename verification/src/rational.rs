//! Exact rational arithmetic.
//!
//! Every scalar of the scene (a coordinate, an angle, a size component) is a
//! rational number held as a numerator/denominator pair of `i128`. The
//! mathematical value of such a pair is modelled by `Qv`, a pair of unbounded
//! integers, and all contracts are stated over `Qv`. Pairs are not reduced:
//! two pairs denote the same rational exactly when `q_eq` holds of them.

use vstd::prelude::*;

verus! {

/// The mathematical value of a rational: (numerator, denominator) over
/// unbounded integers, with a positive denominator.
pub type Qv = (int, int);

/// A well-formed rational value has a positive denominator.
pub open spec fn q_wf(a: Qv) -> bool {
    a.1 > 0
}

/// Two rational values are equal when they cross-multiply equally.
pub open spec fn q_eq(a: Qv, b: Qv) -> bool {
    a.0 * b.1 == b.0 * a.1
}

/// Strict order on rational values; meaningful when both are well-formed.
pub open spec fn q_lt(a: Qv, b: Qv) -> bool
    recommends
        q_wf(a),
        q_wf(b),
{
    a.0 * b.1 < b.0 * a.1
}

/// The sum of two rational values.
pub open spec fn q_add(a: Qv, b: Qv) -> Qv {
    (a.0 * b.1 + b.0 * a.1, a.1 * b.1)
}

/// The negation of a rational value.
pub open spec fn q_neg(a: Qv) -> Qv {
    (-a.0, a.1)
}

/// The product of two rational values.
pub open spec fn q_mul(a: Qv, b: Qv) -> Qv {
    (a.0 * b.0, a.1 * b.1)
}

/// The rational value of an integer.
pub open spec fn q_from_int(n: int) -> Qv {
    (n, 1)
}

/// Whether an unbounded integer fits in an `i128`.
pub open spec fn fits_i128(x: int) -> bool {
    i128::MIN <= x <= i128::MAX
}

/// Whether `q_add(a, b)` can be computed in `i128` arithmetic, every
/// intermediate product included.
pub open spec fn q_add_fits(a: Qv, b: Qv) -> bool {
    &&& fits_i128(a.0 * b.1)
    &&& fits_i128(b.0 * a.1)
    &&& fits_i128(a.0 * b.1 + b.0 * a.1)
    &&& fits_i128(a.1 * b.1)
}

/// Whether `q_mul(a, b)` can be computed in `i128` arithmetic.
pub open spec fn q_mul_fits(a: Qv, b: Qv) -> bool {
    &&& fits_i128(a.0 * b.0)
    &&& fits_i128(a.1 * b.1)
}

/// Whether the cross products deciding `q_eq(a, b)` fit in `i128`.
pub open spec fn q_cross_fits(a: Qv, b: Qv) -> bool {
    &&& fits_i128(a.0 * b.1)
    &&& fits_i128(b.0 * a.1)
}

/// An exact rational number: `num / den` with `den > 0`.
#[derive(Clone, Copy, Debug, PartialEq, Eq, Structural)]
pub struct Rat {
    pub num: i128,
    pub den: i128,
}

impl View for Rat {
    type V = Qv;

    open spec fn view(&self) -> Qv {
        (self.num as int, self.den as int)
    }
}

impl Rat {
    /// Well-formedness: the denominator is positive.
    pub open spec fn wf(self) -> bool {
        q_wf(self@)
    }

    /// Builds the rational `num / den`.
    pub fn new(num: i128, den: i128) -> (r: Rat)
        requires
            den > 0,
        ensures
            r == (Rat { num, den }),
            r.wf(),
    {
        Rat { num, den }
    }

    /// Builds the rational `n / 1`.
    pub fn from_int(n: i128) -> (r: Rat)
        ensures
            r == (Rat { num: n, den: 1 }),
            r.wf(),
            r@ == q_from_int(n as int),
    {
        Rat { num: n, den: 1 }
    }

    /// Exact addition.
    pub fn add(self, other: Rat) -> (r: Rat)
        requires
            self.wf(),
            other.wf(),
            q_add_fits(self@, other@),
        ensures
            r.wf(),
            r@ == q_add(self@, other@),
    {
        proof {
            assert(self.den as int * other.den as int > 0) by (nonlinear_arith)
                requires
                    self.den > 0,
                    other.den > 0,
            ;
        }
        Rat { num: self.num * other.den + other.num * self.den, den: self.den * other.den }
    }

    /// Exact multiplication.
    pub fn mul(self, other: Rat) -> (r: Rat)
        requires
            self.wf(),
            other.wf(),
            q_mul_fits(self@, other@),
        ensures
            r.wf(),
            r@ == q_mul(self@, other@),
    {
        proof {
            assert(self.den as int * other.den as int > 0) by (nonlinear_arith)
                requires
                    self.den > 0,
                    other.den > 0,
            ;
        }
        Rat { num: self.num * other.num, den: self.den * other.den }
    }

    /// Decides equality of the rational values (not of the representations):
    /// `100/20` equals `5/1`.
    pub fn eq_value(self, other: Rat) -> (r: bool)
        requires
            self.wf(),
            other.wf(),
            q_cross_fits(self@, other@),
        ensures
            r == q_eq(self@, other@),
    {
        self.num * other.den == other.num * self.den
    }
}

/// Rational addition is commutative on the representations themselves.
pub proof fn lemma_q_add_comm(a: Qv, b: Qv)
    ensures
        q_add(a, b) == q_add(b, a),
{
    assert(q_add(a, b) == q_add(b, a)) by (nonlinear_arith);
}

/// Rational addition is associative on the representations themselves.
#[verifier::rlimit(100)]
pub proof fn lemma_q_add_assoc(a: Qv, b: Qv, c: Qv)
    ensures
        q_add(q_add(a, b), c) == q_add(a, q_add(b, c)),
{
    assert((a.0 * b.1 + b.0 * a.1) * c.1 + c.0 * (a.1 * b.1) == a.0 * (b.1 * c.1) + (b.0 * c.1
        + c.0 * b.1) * a.1) by (nonlinear_arith);
    assert((a.1 * b.1) * c.1 == a.1 * (b.1 * c.1)) by (nonlinear_arith);
}

/// Adding a value and then its negation returns to the starting value.
pub proof fn lemma_q_add_cancel(a: Qv, b: Qv)
    requires
        q_wf(a),
        q_wf(b),
    ensures
        q_eq(q_add(q_add(a, b), q_neg(b)), a),
{
    assert(q_eq(q_add(q_add(a, b), q_neg(b)), a)) by (nonlinear_arith)
        requires
            a.1 > 0,
            b.1 > 0,
    ;
}

/// Adding a positive value strictly increases a rational.
pub proof fn lemma_q_lt_add_pos(a: Qv, b: Qv)
    requires
        q_wf(a),
        q_wf(b),
        b.0 > 0,
    ensures
        q_lt(a, q_add(a, b)),
{
    assert(q_lt(a, q_add(a, b))) by (nonlinear_arith)
        requires
            a.1 > 0,
            b.1 > 0,
            b.0 > 0,
    ;
}

/// Adding a negative value strictly decreases a rational.
pub proof fn lemma_q_lt_add_neg(a: Qv, b: Qv)
    requires
        q_wf(a),
        q_wf(b),
        b.0 < 0,
    ensures
        q_lt(q_add(a, b), a),
{
    assert(q_lt(q_add(a, b), a)) by (nonlinear_arith)
        requires
            a.1 > 0,
            b.1 > 0,
            b.0 < 0,
    ;
}

} // verus!
