//! Exact rational arithmetic.
//!
//! The projection transform and the fragment-stage color model are
//! stated over exact rationals instead of machine floats: `Rat` is the
//! mathematical value used in specifications, and `Frac` is the
//! executable fraction the renderer computes with. The host converts a
//! `Frac` to a float only at the GPU boundary.

use vstd::prelude::*;

verus! {

/// A mathematical rational number `num / den`, for specifications only.
pub struct Rat {
    pub num: int,
    pub den: int,
}

/// A rational is well formed when its denominator is positive.
pub open spec fn rat_wf(a: Rat) -> bool {
    a.den > 0
}

/// Equality of rationals by cross multiplication.
pub open spec fn rat_eq(a: Rat, b: Rat) -> bool {
    a.num * b.den == b.num * a.den
}

/// The rational denoting the integer `n`.
pub open spec fn rat_of_int(n: int) -> Rat {
    Rat { num: n, den: 1 }
}

/// Product of two rationals.
pub open spec fn rat_mul(a: Rat, b: Rat) -> Rat {
    Rat { num: a.num * b.num, den: a.den * b.den }
}

/// Sum of two rationals, over the common denominator.
pub open spec fn rat_add(a: Rat, b: Rat) -> Rat {
    Rat { num: a.num * b.den + b.num * a.den, den: a.den * b.den }
}

/// Magnitude bound under which executable fraction arithmetic cannot
/// overflow a 64-bit machine integer.
pub const FRAC_LIMIT: i64 = 0x4000_0000;

/// Strict order on rationals with positive denominators, by cross
/// multiplication.
pub open spec fn rat_lt(a: Rat, b: Rat) -> bool {
    a.num * b.den < b.num * a.den
}

/// Strict order respects cross-multiplication equality: replacing both
/// sides of an inequality by equal rationals preserves it.
pub proof fn lemma_rat_lt_congruence(a: Rat, b: Rat, a2: Rat, b2: Rat) by (nonlinear_arith)
    requires
        rat_wf(a),
        rat_wf(b),
        rat_wf(a2),
        rat_wf(b2),
        rat_eq(a, a2),
        rat_eq(b, b2),
        rat_lt(a2, b2),
    ensures
        rat_lt(a, b),
{
}

/// Cross-multiplication equality is transitive over well-formed
/// rationals.
pub proof fn lemma_rat_eq_trans(a: Rat, b: Rat, c: Rat) by (nonlinear_arith)
    requires
        rat_wf(a),
        rat_wf(b),
        rat_wf(c),
        rat_eq(a, b),
        rat_eq(b, c),
    ensures
        rat_eq(a, c),
{
}

/// The product of two integers below a common magnitude bound stays
/// below the square of that bound.
pub proof fn lemma_mul_in_bounds(a: int, b: int, lim: int)
    requires
        0 < lim,
        -lim < a && a < lim,
        -lim < b && b < lim,
    ensures
        -(lim * lim) < a * b && a * b < lim * lim,
{
    assert(-(lim * lim) < a * b && a * b < lim * lim) by (nonlinear_arith)
        requires
            0 < lim,
            -lim < a && a < lim,
            -lim < b && b < lim,
    ;
}

/// An executable exact fraction. The numerator and denominator are kept
/// small enough (below `FRAC_LIMIT`) that products of two fractions fit
/// in 64 bits.
#[derive(Clone, Copy, Debug, PartialEq, Eq, Structural)]
pub struct Frac {
    pub num: i64,
    pub den: i64,
}

impl View for Frac {
    type V = Rat;

    open spec fn view(&self) -> Rat {
        Rat { num: self.num as int, den: self.den as int }
    }
}

impl Frac {
    /// Well formed: positive denominator, both parts within the
    /// overflow-safe magnitude bound.
    pub open spec fn wf(self) -> bool {
        0 < self.den < FRAC_LIMIT && -FRAC_LIMIT < self.num < FRAC_LIMIT
    }

    /// Builds the fraction `num / den`.
    pub fn new(num: i64, den: i64) -> (r: Frac)
        requires
            0 < den < FRAC_LIMIT,
            -FRAC_LIMIT < num < FRAC_LIMIT,
        ensures
            r.wf(),
            r@ == (Rat { num: num as int, den: den as int }),
    {
        Frac { num, den }
    }

    /// Exact product of two bounded fractions.
    pub fn mul(self, other: Frac) -> (r: Frac)
        requires
            self.wf(),
            other.wf(),
        ensures
            r@ == rat_mul(self@, other@),
            r.den > 0,
    {
        proof {
            lemma_mul_in_bounds(self.num as int, other.num as int, FRAC_LIMIT as int);
            lemma_mul_in_bounds(self.den as int, other.den as int, FRAC_LIMIT as int);
            assert(self.den * other.den > 0) by (nonlinear_arith)
                requires
                    self.den > 0,
                    other.den > 0,
            ;
        }
        Frac { num: self.num * other.num, den: self.den * other.den }
    }

    /// Decides exact equality of the denoted rationals.
    pub fn eq_rat(self, other: Frac) -> (r: bool)
        requires
            self.wf(),
            other.wf(),
        ensures
            r == rat_eq(self@, other@),
    {
        proof {
            lemma_mul_in_bounds(self.num as int, other.den as int, FRAC_LIMIT as int);
            lemma_mul_in_bounds(other.num as int, self.den as int, FRAC_LIMIT as int);
        }
        self.num * other.den == other.num * self.den
    }
}

} // verus!
