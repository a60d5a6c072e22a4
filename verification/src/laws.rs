//! Algebraic laws of base-routed conversion.
//!
//! Over exact rationals the conversion laws hold exactly: routing a
//! magnitude into the base unit and back is the identity, and converting
//! from unit A to unit B and back reproduces the original value — not
//! merely within a floating-point tolerance, but as equal rationals.
//!
//! Applying a rule and inverting a rule are both *affine fraction maps*
//! `v  |->  (v.n * p + o * v.d) / (v.d * d)` for suitable integers
//! `p`, `o`, `d`; the laws are proved once over that shape and then
//! instantiated for `to_base_q` and `from_base_q`.

use vstd::prelude::*;
use crate::rational::{Q, q_wf, q_eq};
use crate::rule::{RuleQ, rule_wf, to_base_q, from_base_q, convert_q};

verus! {

/// Rational equality is reflexive.
pub proof fn lemma_q_eq_refl(a: Q)
    ensures
        q_eq(a, a),
{
}

/// Rational equality is symmetric.
pub proof fn lemma_q_eq_sym(a: Q, b: Q)
    requires
        q_eq(a, b),
    ensures
        q_eq(b, a),
{
}

/// Rational equality is transitive when the middle denominator is nonzero.
pub proof fn lemma_q_eq_trans(a: Q, b: Q, c: Q)
    requires
        q_wf(b),
        q_eq(a, b),
        q_eq(b, c),
    ensures
        q_eq(a, c),
{
    assert((a.n * c.d) * b.d == (c.n * a.d) * b.d) by (nonlinear_arith)
        requires
            a.n * b.d == b.n * a.d,
            b.n * c.d == c.n * b.d;
    lemma_cancel_pos(a.n * c.d, c.n * a.d, b.d);
}

/// Multiplication by a positive factor can be cancelled.
proof fn lemma_cancel_pos(x: int, y: int, k: int)
    requires
        k > 0,
        x * k == y * k,
    ensures
        x == y,
{
    assert(x == y) by (nonlinear_arith)
        requires k > 0, x * k == y * k;
}

/// `to_base` preserves well-formedness.
pub proof fn lemma_to_base_wf(r: RuleQ, v: Q)
    requires
        rule_wf(r),
        q_wf(v),
    ensures
        q_wf(to_base_q(r, v)),
{
    assert((v.d * r.scale.d) * r.offset.d > 0) by (nonlinear_arith)
        requires v.d > 0, r.scale.d > 0, r.offset.d > 0;
}

/// `from_base` preserves well-formedness.
pub proof fn lemma_from_base_wf(r: RuleQ, w: Q)
    requires
        rule_wf(r),
        q_wf(w),
    ensures
        q_wf(from_base_q(r, w)),
{
    assert((w.d * r.offset.d) * r.scale.n > 0) by (nonlinear_arith)
        requires w.d > 0, r.offset.d > 0, r.scale.n > 0;
}

/// `convert_q` preserves well-formedness.
pub proof fn lemma_convert_wf(from_rule: RuleQ, to_rule: RuleQ, v: Q)
    requires
        rule_wf(from_rule),
        rule_wf(to_rule),
        q_wf(v),
    ensures
        q_wf(convert_q(from_rule, to_rule, v)),
{
    lemma_to_base_wf(from_rule, v);
    lemma_from_base_wf(to_rule, to_base_q(from_rule, v));
}

/// Applying the rule `r` to `v` is the affine fraction map with
/// coefficients `(scale.n * offset.d, offset.n * scale.d, scale.d * offset.d)`.
proof fn lemma_to_base_shape(r: RuleQ, v: Q)
    ensures
        to_base_q(r, v).n == v.n * (r.scale.n * r.offset.d) + (r.offset.n * r.scale.d) * v.d,
        to_base_q(r, v).d == v.d * (r.scale.d * r.offset.d),
{
    let sn = r.scale.n;
    let sd = r.scale.d;
    let on = r.offset.n;
    let od = r.offset.d;
    assert((v.n * sn) * od + on * (v.d * sd) == v.n * (sn * od) + (on * sd) * v.d)
        by (nonlinear_arith);
    assert((v.d * sd) * od == v.d * (sd * od)) by (nonlinear_arith);
}

/// Inverting the rule `r` on `w` is the affine fraction map with
/// coefficients `(offset.d * scale.d, -(offset.n * scale.d), offset.d * scale.n)`.
proof fn lemma_from_base_shape(r: RuleQ, w: Q)
    ensures
        from_base_q(r, w).n == w.n * (r.offset.d * r.scale.d) + (-(r.offset.n * r.scale.d)) * w.d,
        from_base_q(r, w).d == w.d * (r.offset.d * r.scale.n),
{
    let sn = r.scale.n;
    let sd = r.scale.d;
    let on = r.offset.n;
    let od = r.offset.d;
    assert((w.n * od + (-on) * w.d) * sd == w.n * (od * sd) + (-(on * sd)) * w.d)
        by (nonlinear_arith);
    assert((w.d * od) * sn == w.d * (od * sn)) by (nonlinear_arith);
}

/// Expanding the cross product of an affine fraction map's numerator with
/// another denominator.
proof fn lemma_affine_cross_expand(an: int, ad: int, bd: int, p: int, o: int, d: int)
    ensures
        (an * p + o * ad) * (bd * d) == (an * bd) * (p * d) + (ad * bd) * (o * d),
{
    vstd::arithmetic::mul::lemma_mul_is_distributive_add_other_way(bd * d, an * p, o * ad);
    assert((an * p) * (bd * d) == (an * bd) * (p * d)) by (nonlinear_arith);
    assert((o * ad) * (bd * d) == (ad * bd) * (o * d)) by (nonlinear_arith);
}

/// An affine fraction map sends equal fractions to equal fractions.
proof fn lemma_affine_congruence(an: int, ad: int, bn: int, bd: int, p: int, o: int, d: int)
    requires
        an * bd == bn * ad,
    ensures
        (an * p + o * ad) * (bd * d) == (bn * p + o * bd) * (ad * d),
{
    lemma_affine_cross_expand(an, ad, bd, p, o, d);
    lemma_affine_cross_expand(bn, bd, ad, p, o, d);
    assert((ad * bd) * (o * d) == (bd * ad) * (o * d)) by (nonlinear_arith);
}

/// Composing two affine fraction maps whose coefficients cancel gives back
/// the original fraction.
proof fn lemma_affine_inverse(
    vn: int,
    vd: int,
    p1: int,
    o1: int,
    d1: int,
    p2: int,
    o2: int,
    d2: int,
)
    requires
        o1 * p2 + o2 * d1 == 0,
        p1 * p2 == d2 * d1,
    ensures
        ((vn * p1 + o1 * vd) * p2 + o2 * (vd * d1)) * vd == vn * ((vd * d1) * d2),
{
    let a = vn * p1 + o1 * vd;
    vstd::arithmetic::mul::lemma_mul_is_distributive_add_other_way(p2, vn * p1, o1 * vd);
    vstd::arithmetic::mul::lemma_mul_is_distributive_add_other_way(vd, a * p2, o2 * (vd * d1));
    vstd::arithmetic::mul::lemma_mul_is_distributive_add_other_way(
        vd,
        (vn * p1) * p2,
        (o1 * vd) * p2,
    );
    assert(((vn * p1) * p2) * vd == (vn * vd) * (p1 * p2)) by (nonlinear_arith);
    assert(((o1 * vd) * p2) * vd == (vd * vd) * (o1 * p2)) by (nonlinear_arith);
    assert((o2 * (vd * d1)) * vd == (vd * vd) * (o2 * d1)) by (nonlinear_arith);
    vstd::arithmetic::mul::lemma_mul_is_distributive_add(vd * vd, o1 * p2, o2 * d1);
    assert(vn * ((vd * d1) * d2) == (vn * vd) * (d2 * d1)) by (nonlinear_arith);
}

/// Inverting a rule undoes applying it: `from_base(to_base(v)) == v` as
/// rationals.
pub proof fn lemma_from_to_base(r: RuleQ, v: Q)
    requires
        rule_wf(r),
        q_wf(v),
    ensures
        q_eq(from_base_q(r, to_base_q(r, v)), v),
{
    let sn = r.scale.n;
    let sd = r.scale.d;
    let on = r.offset.n;
    let od = r.offset.d;
    let p1 = sn * od;
    let o1 = on * sd;
    let d1 = sd * od;
    let p2 = od * sd;
    let o2 = -(on * sd);
    let d2 = od * sn;
    let w = to_base_q(r, v);
    let x = from_base_q(r, w);
    lemma_to_base_shape(r, v);
    lemma_from_base_shape(r, w);
    assert(o1 * p2 + o2 * d1 == 0) by (nonlinear_arith)
        requires o1 == on * sd, o2 == -(on * sd), p2 == od * sd, d1 == sd * od;
    assert(p1 * p2 == d2 * d1) by (nonlinear_arith)
        requires p1 == sn * od, p2 == od * sd, d2 == od * sn, d1 == sd * od;
    lemma_affine_inverse(v.n, v.d, p1, o1, d1, p2, o2, d2);
}

/// Applying a rule undoes inverting it: `to_base(from_base(w)) == w` as
/// rationals.
pub proof fn lemma_to_from_base(r: RuleQ, w: Q)
    requires
        rule_wf(r),
        q_wf(w),
    ensures
        q_eq(to_base_q(r, from_base_q(r, w)), w),
{
    let sn = r.scale.n;
    let sd = r.scale.d;
    let on = r.offset.n;
    let od = r.offset.d;
    let p1 = od * sd;
    let o1 = -(on * sd);
    let d1 = od * sn;
    let p2 = sn * od;
    let o2 = on * sd;
    let d2 = sd * od;
    let x = from_base_q(r, w);
    let y = to_base_q(r, x);
    lemma_from_base_shape(r, w);
    lemma_to_base_shape(r, x);
    assert(o1 * p2 + o2 * d1 == 0) by (nonlinear_arith)
        requires o1 == -(on * sd), o2 == on * sd, p2 == sn * od, d1 == od * sn;
    assert(p1 * p2 == d2 * d1) by (nonlinear_arith)
        requires p1 == od * sd, p2 == sn * od, d2 == sd * od, d1 == od * sn;
    lemma_affine_inverse(w.n, w.d, p1, o1, d1, p2, o2, d2);
}

/// `from_base` maps equal rationals to equal rationals.
pub proof fn lemma_from_base_congruence(r: RuleQ, a: Q, b: Q)
    requires
        rule_wf(r),
        q_wf(a),
        q_wf(b),
        q_eq(a, b),
    ensures
        q_eq(from_base_q(r, a), from_base_q(r, b)),
{
    lemma_from_base_shape(r, a);
    lemma_from_base_shape(r, b);
    lemma_affine_congruence(
        a.n,
        a.d,
        b.n,
        b.d,
        r.offset.d * r.scale.d,
        -(r.offset.n * r.scale.d),
        r.offset.d * r.scale.n,
    );
}

/// Routing a magnitude from a unit to that same unit through the base
/// gives the original value back, as rationals.
pub proof fn lemma_identity_routing(r: RuleQ, v: Q)
    requires
        rule_wf(r),
        q_wf(v),
    ensures
        q_eq(convert_q(r, r, v), v),
{
    lemma_from_to_base(r, v);
}

/// Round-trip law: converting from unit A to unit B and back reproduces
/// the original magnitude exactly, as rationals.
pub proof fn lemma_round_trip(rule_a: RuleQ, rule_b: RuleQ, v: Q)
    requires
        rule_wf(rule_a),
        rule_wf(rule_b),
        q_wf(v),
    ensures
        q_eq(convert_q(rule_b, rule_a, convert_q(rule_a, rule_b, v)), v),
{
    let w = to_base_q(rule_a, v);
    let x = convert_q(rule_a, rule_b, v);
    let z = convert_q(rule_b, rule_a, x);
    lemma_to_base_wf(rule_a, v);
    lemma_from_base_wf(rule_b, w);
    lemma_to_base_wf(rule_b, x);
    lemma_from_base_wf(rule_a, to_base_q(rule_b, x));
    // to_base under rule B undoes from_base under rule B.
    lemma_to_from_base(rule_b, w);
    // Push that equality through from_base under rule A.
    lemma_from_base_congruence(rule_a, to_base_q(rule_b, x), w);
    // from_base under rule A undoes to_base under rule A.
    lemma_from_to_base(rule_a, v);
    lemma_from_base_wf(rule_a, w);
    lemma_q_eq_trans(z, from_base_q(rule_a, w), v);
}

} // verus!
