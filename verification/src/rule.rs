//! Conversion rules: how a unit relates to its family's base unit.
//!
//! A rule is an affine map `base = value * scale + offset` with exact
//! rational `scale` and `offset`. For every family except temperature the
//! offset is zero, making the rule purely multiplicative; temperature needs
//! the full affine form. `to_base` and `from_base` apply a rule and its
//! inverse to an exact rational magnitude, reporting `None` exactly when an
//! intermediate product of the exact computation does not fit in `i128`.

use vstd::prelude::*;
use crate::rational::{Q, Rat, q_mul, q_add, q_sub, q_div, in_i128};

verus! {

/// Mathematical model of a conversion rule: `base = value * scale + offset`.
pub struct RuleQ {
    pub scale: Q,
    pub offset: Q,
}

/// Well-formed rule: positive scale, well-formed fractions.
pub open spec fn rule_wf(r: RuleQ) -> bool {
    r.scale.n > 0 && r.scale.d > 0 && r.offset.d > 0
}

/// The value of `v` in the family's base unit.
pub open spec fn to_base_q(r: RuleQ, v: Q) -> Q {
    q_add(q_mul(v, r.scale), r.offset)
}

/// The value of the base-unit magnitude `w` in the rule's own unit.
pub open spec fn from_base_q(r: RuleQ, w: Q) -> Q {
    q_div(q_sub(w, r.offset), r.scale)
}

/// A conversion routed through the base unit: apply the source rule, then
/// invert the target rule.
pub open spec fn convert_q(from_rule: RuleQ, to_rule: RuleQ, v: Q) -> Q {
    from_base_q(to_rule, to_base_q(from_rule, v))
}

/// Whether every intermediate of the exact `to_base` computation fits
/// in `i128`.
pub open spec fn to_base_fits(r: RuleQ, v: Q) -> bool {
    &&& in_i128(v.n * r.scale.n)
    &&& in_i128(v.d * r.scale.d)
    &&& in_i128(v.n * r.scale.n * r.offset.d)
    &&& in_i128(r.offset.n * (v.d * r.scale.d))
    &&& in_i128(v.n * r.scale.n * r.offset.d + r.offset.n * (v.d * r.scale.d))
    &&& in_i128(v.d * r.scale.d * r.offset.d)
}

/// Whether every intermediate of the exact `from_base` computation fits
/// in `i128`.
pub open spec fn from_base_fits(r: RuleQ, w: Q) -> bool {
    &&& in_i128(w.n * r.offset.d)
    &&& in_i128(r.offset.n * w.d)
    &&& in_i128(w.n * r.offset.d - r.offset.n * w.d)
    &&& in_i128((w.n * r.offset.d - r.offset.n * w.d) * r.scale.d)
    &&& in_i128(w.d * r.offset.d)
    &&& in_i128(w.d * r.offset.d * r.scale.n)
}

/// Whether the full base-routed conversion fits in `i128`.
pub open spec fn convert_fits(from_rule: RuleQ, to_rule: RuleQ, v: Q) -> bool {
    to_base_fits(from_rule, v) && from_base_fits(to_rule, to_base_q(from_rule, v))
}

/// A purely multiplicative rule, as rationals: `base = value * (n / d)`.
pub open spec fn scale_q(n: int, d: int) -> RuleQ {
    RuleQ { scale: Q { n: n, d: d }, offset: Q { n: 0, d: 1 } }
}

/// An affine rule, as rationals: `base = value * (sn / sd) + (on / od)`.
pub open spec fn affine_q(sn: int, sd: int, on: int, od: int) -> RuleQ {
    RuleQ { scale: Q { n: sn, d: sd }, offset: Q { n: on, d: od } }
}

/// Executable conversion rule, with exact `i128` fraction parts.
pub struct Rule {
    pub scale_num: i128,
    pub scale_den: i128,
    pub offset_num: i128,
    pub offset_den: i128,
}

impl View for Rule {
    type V = RuleQ;

    open spec fn view(&self) -> RuleQ {
        RuleQ {
            scale: Q { n: self.scale_num as int, d: self.scale_den as int },
            offset: Q { n: self.offset_num as int, d: self.offset_den as int },
        }
    }
}

impl Rule {
    /// Well-formed rule.
    pub open spec fn wf(self) -> bool {
        rule_wf(self@)
    }

    /// A purely multiplicative rule `base = value * (num / den)`.
    pub fn scale(num: i128, den: i128) -> (r: Rule)
        requires
            num > 0,
            den > 0,
        ensures
            r.wf(),
            r@ == (RuleQ {
                scale: Q { n: num as int, d: den as int },
                offset: Q { n: 0int, d: 1int },
            }),
    {
        Rule { scale_num: num, scale_den: den, offset_num: 0, offset_den: 1 }
    }

    /// An affine rule `base = value * (s_num / s_den) + (o_num / o_den)`.
    pub fn affine(s_num: i128, s_den: i128, o_num: i128, o_den: i128) -> (r: Rule)
        requires
            s_num > 0,
            s_den > 0,
            o_den > 0,
        ensures
            r.wf(),
            r@ == (RuleQ {
                scale: Q { n: s_num as int, d: s_den as int },
                offset: Q { n: o_num as int, d: o_den as int },
            }),
    {
        Rule { scale_num: s_num, scale_den: s_den, offset_num: o_num, offset_den: o_den }
    }
}

/// Applies `r` to `v`, yielding the magnitude in the base unit.
///
/// Returns `None` exactly when the exact computation leaves `i128`.
pub fn to_base(v: &Rat, r: &Rule) -> (res: Option<Rat>)
    requires
        v.wf(),
        r.wf(),
    ensures
        res matches Some(w) ==> to_base_fits(r@, v@) && w.wf() && w@ == to_base_q(r@, v@),
        res is None ==> !to_base_fits(r@, v@),
{
    let t1 = match v.num().checked_mul(r.scale_num) {
        Some(x) => x,
        None => { return None; },
    };
    let t2 = match v.den().checked_mul(r.scale_den) {
        Some(x) => x,
        None => { return None; },
    };
    let t3 = match t1.checked_mul(r.offset_den) {
        Some(x) => x,
        None => { return None; },
    };
    let t4 = match r.offset_num.checked_mul(t2) {
        Some(x) => x,
        None => { return None; },
    };
    let wn = match t3.checked_add(t4) {
        Some(x) => x,
        None => { return None; },
    };
    let wd = match t2.checked_mul(r.offset_den) {
        Some(x) => x,
        None => { return None; },
    };
    proof {
        lemma_pos_mul_pos(v@.d, r@.scale.d);
        lemma_pos_mul_pos(v@.d * r@.scale.d, r@.offset.d);
    }
    Some(Rat::from_parts(wn, wd))
}

/// Inverts `r` on the base-unit magnitude `w`, yielding the magnitude in
/// the rule's own unit.
///
/// Returns `None` exactly when the exact computation leaves `i128`.
pub fn from_base(w: &Rat, r: &Rule) -> (res: Option<Rat>)
    requires
        w.wf(),
        r.wf(),
    ensures
        res matches Some(v) ==> from_base_fits(r@, w@) && v.wf() && v@ == from_base_q(r@, w@),
        res is None ==> !from_base_fits(r@, w@),
{
    let s1 = match w.num().checked_mul(r.offset_den) {
        Some(x) => x,
        None => { return None; },
    };
    let s2 = match r.offset_num.checked_mul(w.den()) {
        Some(x) => x,
        None => { return None; },
    };
    let s3 = match s1.checked_sub(s2) {
        Some(x) => x,
        None => { return None; },
    };
    let rn = match s3.checked_mul(r.scale_den) {
        Some(x) => x,
        None => { return None; },
    };
    let d1 = match w.den().checked_mul(r.offset_den) {
        Some(x) => x,
        None => { return None; },
    };
    let rd = match d1.checked_mul(r.scale_num) {
        Some(x) => x,
        None => { return None; },
    };
    proof {
        lemma_pos_mul_pos(w@.d, r@.offset.d);
        lemma_pos_mul_pos(w@.d * r@.offset.d, r@.scale.n);
        lemma_neg_mul(r@.offset.n, w@.d);
    }
    Some(Rat::from_parts(rn, rd))
}

/// Negation distributes over a product.
proof fn lemma_neg_mul(a: int, b: int)
    ensures
        (-a) * b == -(a * b),
{
    assert((-a) * b == -(a * b)) by (nonlinear_arith);
}

/// The product of two positive integers is positive.
proof fn lemma_pos_mul_pos(a: int, b: int)
    requires
        a > 0,
        b > 0,
    ensures
        a * b > 0,
{
    assert(a * b > 0) by (nonlinear_arith)
        requires a > 0, b > 0;
}

} // verus!
