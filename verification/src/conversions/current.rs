//! Electric current conversions. Base unit: the ampere.
//!
//! Factors are exact powers of ten between the SI prefixes, from the
//! nanoampere to the kiloampere.

use vstd::prelude::*;
use crate::casefold::eq_fold;
use crate::dispatch::{
    Family, UnitFamily, ConversionError, convert_str, convert_units, convert_outcome, dispatch_ok,
};
use crate::rational::Rat;
use crate::rule::{Rule, RuleQ, scale_q, to_base_q, to_base_fits, from_base_q, from_base_fits};

verus! {

/// The supported electric current units.
#[derive(Clone, Copy, PartialEq, Eq, Structural, Debug)]
pub enum CurrentUnit {
    Ampere,
    Milliampere,
    Microampere,
    Nanoampere,
    Kiloampere,
}

impl UnitFamily for CurrentUnit {
    open spec fn lookup(name: Seq<char>) -> Option<CurrentUnit> {
        if name == "a"@ || name == "amp"@ || name == "ampere"@ || name == "amperes"@ {
            Some(CurrentUnit::Ampere)
        } else if name == "ma"@ || name == "milliamp"@ || name == "milliampere"@ || name == "milliamperes"@ {
            Some(CurrentUnit::Milliampere)
        } else if name == "μa"@ || name == "ua"@ || name == "microamp"@ || name == "microampere"@ || name == "microamperes"@ {
            Some(CurrentUnit::Microampere)
        } else if name == "na"@ || name == "nanoamp"@ || name == "nanoampere"@ || name == "nanoamperes"@ {
            Some(CurrentUnit::Nanoampere)
        } else if name == "ka"@ || name == "kiloamp"@ || name == "kiloampere"@ || name == "kiloamperes"@ {
            Some(CurrentUnit::Kiloampere)
        } else {
            None
        }
    }

    open spec fn spec_family() -> Family {
        Family::Current
    }

    open spec fn rule_q(self) -> RuleQ {
        match self {
            CurrentUnit::Ampere => scale_q(1, 1),
            CurrentUnit::Milliampere => scale_q(1, 1000),
            CurrentUnit::Microampere => scale_q(1, 1000000),
            CurrentUnit::Nanoampere => scale_q(1, 1000000000),
            CurrentUnit::Kiloampere => scale_q(1000, 1),
        }
    }

    proof fn lemma_rule_wf(self) {
    }

    fn parse(name: &str) -> (r: Option<CurrentUnit>) {
        if eq_fold(name, "a") || eq_fold(name, "amp") || eq_fold(name, "ampere") || eq_fold(name, "amperes") {
            Some(CurrentUnit::Ampere)
        } else if eq_fold(name, "ma") || eq_fold(name, "milliamp") || eq_fold(name, "milliampere") || eq_fold(name, "milliamperes") {
            Some(CurrentUnit::Milliampere)
        } else if eq_fold(name, "μa") || eq_fold(name, "ua") || eq_fold(name, "microamp") || eq_fold(name, "microampere") || eq_fold(name, "microamperes") {
            Some(CurrentUnit::Microampere)
        } else if eq_fold(name, "na") || eq_fold(name, "nanoamp") || eq_fold(name, "nanoampere") || eq_fold(name, "nanoamperes") {
            Some(CurrentUnit::Nanoampere)
        } else if eq_fold(name, "ka") || eq_fold(name, "kiloamp") || eq_fold(name, "kiloampere") || eq_fold(name, "kiloamperes") {
            Some(CurrentUnit::Kiloampere)
        } else {
            None
        }
    }

    fn family() -> (f: Family) {
        Family::Current
    }

    fn rule(self) -> (r: Rule) {
        match self {
            CurrentUnit::Ampere => Rule::scale(1, 1),
            CurrentUnit::Milliampere => Rule::scale(1, 1000),
            CurrentUnit::Microampere => Rule::scale(1, 1000000),
            CurrentUnit::Nanoampere => Rule::scale(1, 1000000000),
            CurrentUnit::Kiloampere => Rule::scale(1000, 1),
        }
    }

    fn unit_eq(self, other: CurrentUnit) -> (r: bool) {
        self == other
    }
}

/// The magnitude of `value` in amperes.
pub fn to_base(value: &Rat, unit: CurrentUnit) -> (r: Option<Rat>)
    requires
        value.wf(),
    ensures
        r matches Some(w) ==> w.wf() && w@ == to_base_q(unit.rule_q(), value@),
        r is None <==> !to_base_fits(unit.rule_q(), value@),
{
    proof {
        unit.lemma_rule_wf();
    }
    crate::rule::to_base(value, &unit.rule())
}

/// The magnitude in `unit` of a value of `value` amperes.
pub fn from_base(value: &Rat, unit: CurrentUnit) -> (r: Option<Rat>)
    requires
        value.wf(),
    ensures
        r matches Some(w) ==> w.wf() && w@ == from_base_q(unit.rule_q(), value@),
        r is None <==> !from_base_fits(unit.rule_q(), value@),
{
    proof {
        unit.lemma_rule_wf();
    }
    crate::rule::from_base(value, &unit.rule())
}

/// Converts a magnitude between two resolved electric current units, routing
/// through amperes; a same-unit conversion returns the value
/// unchanged.
pub fn convert(value: &Rat, from: CurrentUnit, to: CurrentUnit) -> (r: Option<Rat>)
    requires
        value.wf(),
    ensures
        r is Some <==> convert_outcome(from, to, value@) is Some,
        r matches Some(w) ==> w.wf() && Some(w@) == convert_outcome(from, to, value@),
        from == to ==> r == Some(*value),
{
    convert_units(value, from, to)
}

/// Converts between any two supported electric current units given by name.
///
/// Names: `a`, `amp`, `ampere(s)`, `ma`, `milliamp`, `milliampere(s)`,
/// `μa`, `ua`, `microamp`, `microampere(s)`, `na`, `nanoamp`,
/// `nanoampere(s)`, `ka`, `kiloamp`, `kiloampere(s)`. Names are matched
/// case-insensitively; an unrecognized name is reported as an error, the
/// `from` side first.
pub fn convert_current(value: &Rat, from: &str, to: &str) -> (r: Result<Rat, ConversionError>)
    requires
        value.wf(),
    ensures
        dispatch_ok::<CurrentUnit>(r, value@, from@, to@),
{
    convert_str::<CurrentUnit>(value, from, to)
}

} // verus!
