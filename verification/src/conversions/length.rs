//! Length conversions. Base unit: the meter.
//!
//! Conversion factors, as exact fractions of the published constants:
//! 1 meter = 3.28084 feet = 39.3701 inches = 1.09361 yards;
//! 1 mile = 1609.34 meters.

use vstd::prelude::*;
use crate::casefold::eq_fold;
use crate::dispatch::{
    Family, UnitFamily, ConversionError, convert_str, convert_units, convert_outcome, dispatch_ok,
};
use crate::rational::Rat;
use crate::rule::{Rule, RuleQ, scale_q, to_base_q, to_base_fits, from_base_q, from_base_fits};

verus! {

/// The supported length units.
#[derive(Clone, Copy, PartialEq, Eq, Structural, Debug)]
pub enum LengthUnit {
    Meter,
    Kilometer,
    Centimeter,
    Millimeter,
    Foot,
    Inch,
    Yard,
    Mile,
}

impl UnitFamily for LengthUnit {
    open spec fn lookup(name: Seq<char>) -> Option<LengthUnit> {
        if name == "m"@ || name == "meter"@ || name == "meters"@ {
            Some(LengthUnit::Meter)
        } else if name == "km"@ || name == "kilometer"@ || name == "kilometers"@ {
            Some(LengthUnit::Kilometer)
        } else if name == "cm"@ || name == "centimeter"@ || name == "centimeters"@ {
            Some(LengthUnit::Centimeter)
        } else if name == "mm"@ || name == "millimeter"@ || name == "millimeters"@ {
            Some(LengthUnit::Millimeter)
        } else if name == "ft"@ || name == "foot"@ || name == "feet"@ {
            Some(LengthUnit::Foot)
        } else if name == "in"@ || name == "inch"@ || name == "inches"@ {
            Some(LengthUnit::Inch)
        } else if name == "yd"@ || name == "yard"@ || name == "yards"@ {
            Some(LengthUnit::Yard)
        } else if name == "mi"@ || name == "mile"@ || name == "miles"@ {
            Some(LengthUnit::Mile)
        } else {
            None
        }
    }

    open spec fn spec_family() -> Family {
        Family::Length
    }

    open spec fn rule_q(self) -> RuleQ {
        match self {
            LengthUnit::Meter => scale_q(1, 1),
            LengthUnit::Kilometer => scale_q(1000, 1),
            LengthUnit::Centimeter => scale_q(1, 100),
            LengthUnit::Millimeter => scale_q(1, 1000),
            LengthUnit::Foot => scale_q(100000, 328084),
            LengthUnit::Inch => scale_q(10000, 393701),
            LengthUnit::Yard => scale_q(100000, 109361),
            LengthUnit::Mile => scale_q(160934, 100),
        }
    }

    proof fn lemma_rule_wf(self) {
    }

    fn parse(name: &str) -> (r: Option<LengthUnit>) {
        if eq_fold(name, "m") || eq_fold(name, "meter") || eq_fold(name, "meters") {
            Some(LengthUnit::Meter)
        } else if eq_fold(name, "km") || eq_fold(name, "kilometer") || eq_fold(name, "kilometers") {
            Some(LengthUnit::Kilometer)
        } else if eq_fold(name, "cm") || eq_fold(name, "centimeter") || eq_fold(
            name,
            "centimeters",
        ) {
            Some(LengthUnit::Centimeter)
        } else if eq_fold(name, "mm") || eq_fold(name, "millimeter") || eq_fold(
            name,
            "millimeters",
        ) {
            Some(LengthUnit::Millimeter)
        } else if eq_fold(name, "ft") || eq_fold(name, "foot") || eq_fold(name, "feet") {
            Some(LengthUnit::Foot)
        } else if eq_fold(name, "in") || eq_fold(name, "inch") || eq_fold(name, "inches") {
            Some(LengthUnit::Inch)
        } else if eq_fold(name, "yd") || eq_fold(name, "yard") || eq_fold(name, "yards") {
            Some(LengthUnit::Yard)
        } else if eq_fold(name, "mi") || eq_fold(name, "mile") || eq_fold(name, "miles") {
            Some(LengthUnit::Mile)
        } else {
            None
        }
    }

    fn family() -> (f: Family) {
        Family::Length
    }

    fn rule(self) -> (r: Rule) {
        match self {
            LengthUnit::Meter => Rule::scale(1, 1),
            LengthUnit::Kilometer => Rule::scale(1000, 1),
            LengthUnit::Centimeter => Rule::scale(1, 100),
            LengthUnit::Millimeter => Rule::scale(1, 1000),
            LengthUnit::Foot => Rule::scale(100000, 328084),
            LengthUnit::Inch => Rule::scale(10000, 393701),
            LengthUnit::Yard => Rule::scale(100000, 109361),
            LengthUnit::Mile => Rule::scale(160934, 100),
        }
    }

    fn unit_eq(self, other: LengthUnit) -> (r: bool) {
        self == other
    }
}

/// The magnitude of `value` in meters.
pub fn to_base(value: &Rat, unit: LengthUnit) -> (r: Option<Rat>)
    requires
        value.wf(),
    ensures
        r matches Some(w) ==> w.wf() && w@ == to_base_q(unit.rule_q(), value@),
        r is None <==> !to_base_fits(unit.rule_q(), value@),
{
    proof {
        unit.lemma_rule_wf();
    }
    crate::rule::to_base(value, &unit.rule())
}

/// The magnitude in `unit` of a value of `value` meters.
pub fn from_base(value: &Rat, unit: LengthUnit) -> (r: Option<Rat>)
    requires
        value.wf(),
    ensures
        r matches Some(w) ==> w.wf() && w@ == from_base_q(unit.rule_q(), value@),
        r is None <==> !from_base_fits(unit.rule_q(), value@),
{
    proof {
        unit.lemma_rule_wf();
    }
    crate::rule::from_base(value, &unit.rule())
}

/// Converts a magnitude between two resolved length units, routing through
/// meters; a same-unit conversion returns the value unchanged.
pub fn convert(value: &Rat, from: LengthUnit, to: LengthUnit) -> (r: Option<Rat>)
    requires
        value.wf(),
    ensures
        r is Some <==> convert_outcome(from, to, value@) is Some,
        r matches Some(w) ==> w.wf() && Some(w@) == convert_outcome(from, to, value@),
        from == to ==> r == Some(*value),
{
    convert_units(value, from, to)
}

/// Converts between any two supported length units given by name.
///
/// Metric names: `m`, `meter(s)`, `km`, `kilometer(s)`, `cm`,
/// `centimeter(s)`, `mm`, `millimeter(s)`. Imperial names: `ft`, `foot`,
/// `feet`, `in`, `inch(es)`, `yd`, `yard(s)`, `mi`, `mile(s)`. Names are
/// matched case-insensitively; an unrecognized name is reported as an
/// error, the `from` side first.
pub fn convert_length(value: &Rat, from: &str, to: &str) -> (r: Result<Rat, ConversionError>)
    requires
        value.wf(),
    ensures
        dispatch_ok::<LengthUnit>(r, value@, from@, to@),
{
    convert_str::<LengthUnit>(value, from, to)
}

} // verus!
