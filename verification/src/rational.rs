//! Exact rational magnitudes.
//!
//! Every magnitude handled by the conversion tables is an exact rational
//! number: an integer numerator over a positive integer denominator. `Q` is
//! the mathematical model used in specifications; `Rat` is its executable
//! counterpart backed by `i128` fields.

use vstd::prelude::*;

verus! {

/// Mathematical rational number: numerator `n` over denominator `d`.
pub struct Q {
    pub n: int,
    pub d: int,
}

/// Well-formed rational: positive denominator.
pub open spec fn q_wf(q: Q) -> bool {
    q.d > 0
}

/// Equality of rationals by cross-multiplication.
pub open spec fn q_eq(a: Q, b: Q) -> bool {
    a.n * b.d == b.n * a.d
}

/// Product of two rationals.
pub open spec fn q_mul(a: Q, b: Q) -> Q {
    Q { n: a.n * b.n, d: a.d * b.d }
}

/// Sum of two rationals, over the common denominator.
pub open spec fn q_add(a: Q, b: Q) -> Q {
    Q { n: a.n * b.d + b.n * a.d, d: a.d * b.d }
}

/// Difference of two rationals.
pub open spec fn q_sub(a: Q, b: Q) -> Q {
    q_add(a, Q { n: -b.n, d: b.d })
}

/// Quotient of `a` by `b`, meaningful when `b.n != 0`.
pub open spec fn q_div(a: Q, b: Q) -> Q {
    Q { n: a.n * b.d, d: a.d * b.n }
}

/// Whether a mathematical integer fits in `i128`.
pub open spec fn in_i128(x: int) -> bool {
    i128::MIN as int <= x && x <= i128::MAX as int
}

/// An exact rational magnitude: the executable counterpart of `Q`.
///
/// The invariant `wf` (positive denominator) is established by the
/// constructors and preserved by every operation of this crate.
#[derive(Clone, Copy)]
pub struct Rat {
    num: i128,
    den: i128,
}

impl View for Rat {
    type V = Q;

    closed spec fn view(&self) -> Q {
        Q { n: self.num as int, d: self.den as int }
    }
}

impl Rat {
    /// Well-formed: positive denominator.
    pub open spec fn wf(self) -> bool {
        q_wf(self@)
    }

    /// Builds `num / den`; `None` exactly when `den` is zero.
    /// A negative denominator is normalized away by negating both parts.
    pub fn new(num: i64, den: i64) -> (r: Option<Rat>)
        ensures
            r is None <==> den == 0,
            r matches Some(q) ==> q.wf() && q_eq(q@, Q { n: num as int, d: den as int }),
    {
        if den == 0 {
            None
        } else if den < 0 {
            let r = Rat { num: -(num as i128), den: -(den as i128) };
            proof {
                lemma_neg_cross(num as int, den as int);
            }
            Some(r)
        } else {
            Some(Rat { num: num as i128, den: den as i128 })
        }
    }

    /// The whole number `n`, as a rational.
    pub fn from_int(n: i64) -> (r: Rat)
        ensures
            r.wf(),
            r@ == (Q { n: n as int, d: 1int }),
    {
        Rat { num: n as i128, den: 1 }
    }

    /// The numerator.
    pub fn num(&self) -> (x: i128)
        ensures
            x as int == self@.n,
    {
        self.num
    }

    /// The denominator.
    pub fn den(&self) -> (x: i128)
        ensures
            x as int == self@.d,
    {
        self.den
    }

    /// Builds a rational from already-validated parts.
    pub(crate) fn from_parts(num: i128, den: i128) -> (r: Rat)
        requires
            den > 0,
        ensures
            r.wf(),
            r@ == (Q { n: num as int, d: den as int }),
    {
        Rat { num, den }
    }

    /// Decides whether `self` and `other` denote the same rational.
    ///
    /// The cross products must fit in `i128`; on the values this library
    /// produces from moderate inputs they do.
    pub fn eq_rat(&self, other: &Rat) -> (r: bool)
        requires
            self.wf(),
            other.wf(),
            in_i128(self@.n * other@.d),
            in_i128(other@.n * self@.d),
        ensures
            r == q_eq(self@, other@),
    {
        self.num * other.den == other.num * self.den
    }
}

/// Negating both parts of a fraction preserves its value.
proof fn lemma_neg_cross(n: int, d: int)
    ensures
        q_eq(Q { n: -n, d: -d }, Q { n: n, d: d }),
{
    assert((-n) * d == n * (-d)) by (nonlinear_arith);
}

} // verus!
