//! String-keyed dispatch over unit families.
//!
//! A family of units implements [`UnitFamily`]: a synonym table from
//! case-folded names to units and a conversion rule per unit. On top of
//! that, `convert_units` converts between two already-resolved units
//! (short-circuiting when they are the same unit), and `convert_str`
//! resolves two free-form names and converts, reporting the unresolved
//! name — the `from` side first — as an error value.

use vstd::prelude::*;
use crate::rational::{Q, q_wf, q_eq, Rat};
use crate::rule::{Rule, RuleQ, rule_wf, convert_q, convert_fits, to_base, from_base};
use crate::casefold::lower_seq;
use crate::laws::{
    lemma_convert_wf, lemma_round_trip, lemma_identity_routing, lemma_q_eq_sym, lemma_q_eq_refl,
};

verus! {

/// The nine physical-quantity families.
#[derive(Clone, Copy, PartialEq, Eq, Structural, Debug)]
pub enum Family {
    Length,
    Weight,
    Temperature,
    Volume,
    Time,
    Current,
    Substance,
    LuminousIntensity,
    Area,
}

/// Which side of a conversion request a unit name stood on.
#[derive(Clone, Copy, PartialEq, Eq, Structural, Debug)]
pub enum UnitSide {
    From,
    To,
}

/// A conversion request that could not be carried out.
#[derive(Debug)]
pub enum ConversionError {
    /// A unit name matched nothing in the requested family.
    UnsupportedUnit { family: Family, side: UnitSide, unit: String },
    /// The exact arithmetic left the range this library computes in.
    OutOfRange { family: Family },
}

/// A family of units: a synonym table and a conversion rule per unit.
pub trait UnitFamily: Sized + Copy {
    /// The unit an already case-folded name resolves to.
    spec fn lookup(name: Seq<char>) -> Option<Self>;

    /// The family tag.
    spec fn spec_family() -> Family;

    /// The unit's conversion rule, as exact rationals.
    spec fn rule_q(self) -> RuleQ;

    /// Every unit's rule is well-formed.
    proof fn lemma_rule_wf(self)
        ensures
            rule_wf(self.rule_q()),
    ;

    /// Resolves a raw unit name: case folding, then the synonym table.
    fn parse(name: &str) -> (r: Option<Self>)
        ensures
            r == Self::lookup(lower_seq(name@)),
    ;

    /// The family tag.
    fn family() -> (f: Family)
        ensures
            f == Self::spec_family(),
    ;

    /// The unit's conversion rule.
    fn rule(self) -> (r: Rule)
        ensures
            r@ == self.rule_q(),
    ;

    /// Unit equality.
    fn unit_eq(self, other: Self) -> (r: bool)
        ensures
            r == (self == other),
    ;
}

/// The unit a raw name resolves to: case folding, then the synonym table.
pub open spec fn unit_of<U: UnitFamily>(name: Seq<char>) -> Option<U> {
    U::lookup(lower_seq(name))
}

/// What a conversion between two resolved units yields: the value itself
/// for a same-unit request, the base-routed exact result when it fits in
/// this library's integer range, and nothing otherwise.
pub open spec fn convert_outcome<U: UnitFamily>(from: U, to: U, v: Q) -> Option<Q> {
    if from == to {
        Some(v)
    } else if convert_fits(from.rule_q(), to.rule_q(), v) {
        Some(convert_q(from.rule_q(), to.rule_q(), v))
    } else {
        None
    }
}

/// Converts between two already-resolved units of one family.
///
/// A same-unit conversion returns the value unchanged — exactly, not
/// routed through the base unit. Returns `None` exactly when the exact
/// base-routed computation leaves `i128`.
pub fn convert_units<U: UnitFamily>(value: &Rat, from: U, to: U) -> (r: Option<Rat>)
    requires
        value.wf(),
    ensures
        r is Some <==> convert_outcome(from, to, value@) is Some,
        r matches Some(w) ==> w.wf() && Some(w@) == convert_outcome(from, to, value@),
        from == to ==> r == Some(*value),
{
    if from.unit_eq(to) {
        Some(*value)
    } else {
        let from_rule = from.rule();
        let to_rule = to.rule();
        proof {
            from.lemma_rule_wf();
            to.lemma_rule_wf();
        }
        match to_base(value, &from_rule) {
            Some(w) => from_base(&w, &to_rule),
            None => None,
        }
    }
}

/// What the string-keyed dispatch must return for a request
/// `(v, from, to)`: the converted value when both names resolve and the
/// arithmetic fits, and otherwise an error naming the family and the first
/// unresolved side — the `from` side before the `to` side.
pub open spec fn dispatch_ok<U: UnitFamily>(
    r: Result<Rat, ConversionError>,
    v: Q,
    from: Seq<char>,
    to: Seq<char>,
) -> bool {
    match unit_of::<U>(from) {
        None => r matches Err(ConversionError::UnsupportedUnit { family, side, unit })
            && family == U::spec_family() && side == UnitSide::From && unit@ == from,
        Some(from_unit) => match unit_of::<U>(to) {
            None => r matches Err(ConversionError::UnsupportedUnit { family, side, unit })
                && family == U::spec_family() && side == UnitSide::To && unit@ == to,
            Some(to_unit) => match convert_outcome(from_unit, to_unit, v) {
                Some(q) => r matches Ok(w) && w.wf() && w@ == q,
                None => r matches Err(ConversionError::OutOfRange { family })
                    && family == U::spec_family(),
            },
        },
    }
}

/// Converts between two units given by free-form names.
pub fn convert_str<U: UnitFamily>(value: &Rat, from: &str, to: &str) -> (r: Result<
    Rat,
    ConversionError,
>)
    requires
        value.wf(),
    ensures
        dispatch_ok::<U>(r, value@, from@, to@),
{
    match U::parse(from) {
        None => Err(
            ConversionError::UnsupportedUnit {
                family: U::family(),
                side: UnitSide::From,
                unit: from.to_owned(),
            },
        ),
        Some(from_unit) => match U::parse(to) {
            None => Err(
                ConversionError::UnsupportedUnit {
                    family: U::family(),
                    side: UnitSide::To,
                    unit: to.to_owned(),
                },
            ),
            Some(to_unit) => match convert_units(value, from_unit, to_unit) {
                Some(w) => Ok(w),
                None => Err(ConversionError::OutOfRange { family: U::family() }),
            },
        },
    }
}

/// Identity law: a same-unit conversion yields the value itself, exactly.
pub proof fn lemma_unit_identity<U: UnitFamily>(a: U, v: Q)
    ensures
        convert_outcome(a, a, v) == Some(v),
{
}

/// Round-trip law: when converting a value from unit A to unit B and the
/// result back from B to A both succeed, the final value equals the
/// original, as exact rationals.
pub proof fn lemma_unit_round_trip<U: UnitFamily>(a: U, b: U, v: Q)
    requires
        q_wf(v),
    ensures
        match convert_outcome(a, b, v) {
            Some(w) => match convert_outcome(b, a, w) {
                Some(z) => q_eq(z, v),
                None => true,
            },
            None => true,
        },
{
    if a == b {
        lemma_q_eq_refl(v);
    } else {
        a.lemma_rule_wf();
        b.lemma_rule_wf();
        if convert_fits(a.rule_q(), b.rule_q(), v) {
            let w = convert_q(a.rule_q(), b.rule_q(), v);
            lemma_convert_wf(a.rule_q(), b.rule_q(), v);
            if convert_fits(b.rule_q(), a.rule_q(), w) {
                lemma_round_trip(a.rule_q(), b.rule_q(), v);
            }
        }
    }
}

/// Base-routing law: whatever a conversion between two resolved units
/// yields equals — as a rational — the value routed through the base unit
/// by `from_base(to, to_base(from, v))`; the same-unit short circuit
/// changes the representation, never the value.
pub proof fn lemma_base_routing<U: UnitFamily>(a: U, b: U, v: Q)
    requires
        q_wf(v),
    ensures
        match convert_outcome(a, b, v) {
            Some(w) => q_eq(w, convert_q(a.rule_q(), b.rule_q(), v)),
            None => true,
        },
{
    if a == b {
        a.lemma_rule_wf();
        lemma_identity_routing(a.rule_q(), v);
        lemma_q_eq_sym(convert_q(a.rule_q(), a.rule_q(), v), v);
    } else {
        if convert_fits(a.rule_q(), b.rule_q(), v) {
            lemma_q_eq_refl(convert_q(a.rule_q(), b.rule_q(), v));
        }
    }
}

/// Case-insensitivity law: names with the same case-folded form resolve to
/// the same unit.
pub proof fn lemma_case_insensitive<U: UnitFamily>(s1: Seq<char>, s2: Seq<char>)
    requires
        lower_seq(s1) == lower_seq(s2),
    ensures
        unit_of::<U>(s1) == unit_of::<U>(s2),
{
}

/// Synonym law: requests whose unit names resolve to the same units are
/// answered with the same outcome.
pub proof fn lemma_synonym_same_outcome<U: UnitFamily>(
    v: Q,
    from1: Seq<char>,
    to1: Seq<char>,
    from2: Seq<char>,
    to2: Seq<char>,
)
    requires
        unit_of::<U>(from1) == unit_of::<U>(from2),
        unit_of::<U>(to1) == unit_of::<U>(to2),
    ensures
        match (unit_of::<U>(from1), unit_of::<U>(to1)) {
            (Some(from_unit), Some(to_unit)) => convert_outcome(from_unit, to_unit, v)
                == {
                let from2_unit = unit_of::<U>(from2)->Some_0;
                let to2_unit = unit_of::<U>(to2)->Some_0;
                convert_outcome(from2_unit, to2_unit, v)
            },
            _ => true,
        },
{
}

/// Error-ordering law: when the `from` name does not resolve, the reported
/// error names the `from` side — whether or not the `to` name resolves.
pub proof fn lemma_error_ordering<U: UnitFamily>(
    r: Result<Rat, ConversionError>,
    v: Q,
    from: Seq<char>,
    to: Seq<char>,
)
    requires
        dispatch_ok::<U>(r, v, from, to),
        unit_of::<U>(from) is None,
    ensures
        r matches Err(ConversionError::UnsupportedUnit { family, side, unit })
            && family == U::spec_family() && side == UnitSide::From && unit@ == from,
{
}

} // verus!

