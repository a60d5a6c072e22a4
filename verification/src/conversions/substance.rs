//! Amount-of-substance conversions. Base unit: the mole.
//!
//! Factors are exact powers of ten between the SI prefixes, from the
//! picomole to the kilomole.

use vstd::prelude::*;
use crate::casefold::eq_fold;
use crate::dispatch::{
    Family, UnitFamily, ConversionError, convert_str, convert_units, convert_outcome, dispatch_ok,
};
use crate::rational::Rat;
use crate::rule::{Rule, RuleQ, scale_q, to_base_q, to_base_fits, from_base_q, from_base_fits};

verus! {

/// The supported amount-of-substance units.
#[derive(Clone, Copy, PartialEq, Eq, Structural, Debug)]
pub enum SubstanceUnit {
    Mole,
    Millimole,
    Micromole,
    Nanomole,
    Picomole,
    Kilomole,
}

impl UnitFamily for SubstanceUnit {
    open spec fn lookup(name: Seq<char>) -> Option<SubstanceUnit> {
        if name == "mol"@ || name == "mole"@ || name == "moles"@ {
            Some(SubstanceUnit::Mole)
        } else if name == "mmol"@ || name == "millimol"@ || name == "millimole"@ || name == "millimoles"@ {
            Some(SubstanceUnit::Millimole)
        } else if name == "μmol"@ || name == "umol"@ || name == "micromol"@ || name == "micromole"@ || name == "micromoles"@ {
            Some(SubstanceUnit::Micromole)
        } else if name == "nmol"@ || name == "nanomol"@ || name == "nanomole"@ || name == "nanomoles"@ {
            Some(SubstanceUnit::Nanomole)
        } else if name == "pmol"@ || name == "picomol"@ || name == "picomole"@ || name == "picomoles"@ {
            Some(SubstanceUnit::Picomole)
        } else if name == "kmol"@ || name == "kilomol"@ || name == "kilomole"@ || name == "kilomoles"@ {
            Some(SubstanceUnit::Kilomole)
        } else {
            None
        }
    }

    open spec fn spec_family() -> Family {
        Family::Substance
    }

    open spec fn rule_q(self) -> RuleQ {
        match self {
            SubstanceUnit::Mole => scale_q(1, 1),
            SubstanceUnit::Millimole => scale_q(1, 1000),
            SubstanceUnit::Micromole => scale_q(1, 1000000),
            SubstanceUnit::Nanomole => scale_q(1, 1000000000),
            SubstanceUnit::Picomole => scale_q(1, 1000000000000),
            SubstanceUnit::Kilomole => scale_q(1000, 1),
        }
    }

    proof fn lemma_rule_wf(self) {
    }

    fn parse(name: &str) -> (r: Option<SubstanceUnit>) {
        if eq_fold(name, "mol") || eq_fold(name, "mole") || eq_fold(name, "moles") {
            Some(SubstanceUnit::Mole)
        } else if eq_fold(name, "mmol") || eq_fold(name, "millimol") || eq_fold(name, "millimole") || eq_fold(name, "millimoles") {
            Some(SubstanceUnit::Millimole)
        } else if eq_fold(name, "μmol") || eq_fold(name, "umol") || eq_fold(name, "micromol") || eq_fold(name, "micromole") || eq_fold(name, "micromoles") {
            Some(SubstanceUnit::Micromole)
        } else if eq_fold(name, "nmol") || eq_fold(name, "nanomol") || eq_fold(name, "nanomole") || eq_fold(name, "nanomoles") {
            Some(SubstanceUnit::Nanomole)
        } else if eq_fold(name, "pmol") || eq_fold(name, "picomol") || eq_fold(name, "picomole") || eq_fold(name, "picomoles") {
            Some(SubstanceUnit::Picomole)
        } else if eq_fold(name, "kmol") || eq_fold(name, "kilomol") || eq_fold(name, "kilomole") || eq_fold(name, "kilomoles") {
            Some(SubstanceUnit::Kilomole)
        } else {
            None
        }
    }

    fn family() -> (f: Family) {
        Family::Substance
    }

    fn rule(self) -> (r: Rule) {
        match self {
            SubstanceUnit::Mole => Rule::scale(1, 1),
            SubstanceUnit::Millimole => Rule::scale(1, 1000),
            SubstanceUnit::Micromole => Rule::scale(1, 1000000),
            SubstanceUnit::Nanomole => Rule::scale(1, 1000000000),
            SubstanceUnit::Picomole => Rule::scale(1, 1000000000000),
            SubstanceUnit::Kilomole => Rule::scale(1000, 1),
        }
    }

    fn unit_eq(self, other: SubstanceUnit) -> (r: bool) {
        self == other
    }
}

/// The magnitude of `value` in moles.
pub fn to_base(value: &Rat, unit: SubstanceUnit) -> (r: Option<Rat>)
    requires
        value.wf(),
    ensures
        r matches Some(w) ==> w.wf() && w@ == to_base_q(unit.rule_q(), value@),
        r is None <==> !to_base_fits(unit.rule_q(), value@),
{
    proof {
        unit.lemma_rule_wf();
    }
    crate::rule::to_base(value, &unit.rule())
}

/// The magnitude in `unit` of a value of `value` moles.
pub fn from_base(value: &Rat, unit: SubstanceUnit) -> (r: Option<Rat>)
    requires
        value.wf(),
    ensures
        r matches Some(w) ==> w.wf() && w@ == from_base_q(unit.rule_q(), value@),
        r is None <==> !from_base_fits(unit.rule_q(), value@),
{
    proof {
        unit.lemma_rule_wf();
    }
    crate::rule::from_base(value, &unit.rule())
}

/// Converts a magnitude between two resolved amount-of-substance units, routing
/// through moles; a same-unit conversion returns the value
/// unchanged.
pub fn convert(value: &Rat, from: SubstanceUnit, to: SubstanceUnit) -> (r: Option<Rat>)
    requires
        value.wf(),
    ensures
        r is Some <==> convert_outcome(from, to, value@) is Some,
        r matches Some(w) ==> w.wf() && Some(w@) == convert_outcome(from, to, value@),
        from == to ==> r == Some(*value),
{
    convert_units(value, from, to)
}

/// Converts between any two supported amount-of-substance units given by name.
///
/// Names: `mol`, `mole(s)`, `mmol`, `millimol(e|es)`, `μmol`, `umol`,
/// `micromol(e|es)`, `nmol`, `nanomol(e|es)`, `pmol`, `picomol(e|es)`,
/// `kmol`, `kilomol(e|es)`. Names are matched case-insensitively; an
/// unrecognized name is reported as an error, the `from` side first.
pub fn convert_amount(value: &Rat, from: &str, to: &str) -> (r: Result<Rat, ConversionError>)
    requires
        value.wf(),
    ensures
        dispatch_ok::<SubstanceUnit>(r, value@, from@, to@),
{
    convert_str::<SubstanceUnit>(value, from, to)
}

} // verus!
