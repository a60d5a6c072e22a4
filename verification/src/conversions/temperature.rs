//! Temperature conversions. Base unit: the degree Celsius.
//!
//! The one affine family: Fahrenheit relates to Celsius by
//! `C = (F - 32) * 5/9` and Kelvin by `C = K - 273.15`, so a unit's rule
//! carries an offset beside its scale.

use vstd::prelude::*;
use crate::casefold::eq_fold;
use crate::dispatch::{
    Family, UnitFamily, ConversionError, convert_str, convert_units, convert_outcome, dispatch_ok,
};
use crate::rational::Rat;
use crate::rule::{Rule, RuleQ, scale_q, affine_q, to_base_q, to_base_fits, from_base_q, from_base_fits};

verus! {

/// The supported temperature units.
#[derive(Clone, Copy, PartialEq, Eq, Structural, Debug)]
pub enum TemperatureUnit {
    Celsius,
    Fahrenheit,
    Kelvin,
}

impl UnitFamily for TemperatureUnit {
    open spec fn lookup(name: Seq<char>) -> Option<TemperatureUnit> {
        if name == "c"@ || name == "celsius"@ {
            Some(TemperatureUnit::Celsius)
        } else if name == "f"@ || name == "fahrenheit"@ {
            Some(TemperatureUnit::Fahrenheit)
        } else if name == "k"@ || name == "kelvin"@ {
            Some(TemperatureUnit::Kelvin)
        } else {
            None
        }
    }

    open spec fn spec_family() -> Family {
        Family::Temperature
    }

    open spec fn rule_q(self) -> RuleQ {
        match self {
            TemperatureUnit::Celsius => scale_q(1, 1),
            TemperatureUnit::Fahrenheit => affine_q(5, 9, -160, 9),
            TemperatureUnit::Kelvin => affine_q(1, 1, -5463, 20),
        }
    }

    proof fn lemma_rule_wf(self) {
    }

    fn parse(name: &str) -> (r: Option<TemperatureUnit>) {
        if eq_fold(name, "c") || eq_fold(name, "celsius") {
            Some(TemperatureUnit::Celsius)
        } else if eq_fold(name, "f") || eq_fold(name, "fahrenheit") {
            Some(TemperatureUnit::Fahrenheit)
        } else if eq_fold(name, "k") || eq_fold(name, "kelvin") {
            Some(TemperatureUnit::Kelvin)
        } else {
            None
        }
    }

    fn family() -> (f: Family) {
        Family::Temperature
    }

    fn rule(self) -> (r: Rule) {
        match self {
            TemperatureUnit::Celsius => Rule::scale(1, 1),
            TemperatureUnit::Fahrenheit => Rule::affine(5, 9, -160, 9),
            TemperatureUnit::Kelvin => Rule::affine(1, 1, -5463, 20),
        }
    }

    fn unit_eq(self, other: TemperatureUnit) -> (r: bool) {
        self == other
    }
}

/// The magnitude of `value` in degrees Celsius.
pub fn to_base(value: &Rat, unit: TemperatureUnit) -> (r: Option<Rat>)
    requires
        value.wf(),
    ensures
        r matches Some(w) ==> w.wf() && w@ == to_base_q(unit.rule_q(), value@),
        r is None <==> !to_base_fits(unit.rule_q(), value@),
{
    proof {
        unit.lemma_rule_wf();
    }
    crate::rule::to_base(value, &unit.rule())
}

/// The magnitude in `unit` of a value of `value` degrees Celsius.
pub fn from_base(value: &Rat, unit: TemperatureUnit) -> (r: Option<Rat>)
    requires
        value.wf(),
    ensures
        r matches Some(w) ==> w.wf() && w@ == from_base_q(unit.rule_q(), value@),
        r is None <==> !from_base_fits(unit.rule_q(), value@),
{
    proof {
        unit.lemma_rule_wf();
    }
    crate::rule::from_base(value, &unit.rule())
}

/// Converts a magnitude between two resolved temperature units, routing
/// through degrees Celsius; a same-unit conversion returns the value
/// unchanged.
pub fn convert(value: &Rat, from: TemperatureUnit, to: TemperatureUnit) -> (r: Option<Rat>)
    requires
        value.wf(),
    ensures
        r is Some <==> convert_outcome(from, to, value@) is Some,
        r matches Some(w) ==> w.wf() && Some(w@) == convert_outcome(from, to, value@),
        from == to ==> r == Some(*value),
{
    convert_units(value, from, to)
}

/// Converts between any two supported temperature units given by name.
///
/// Names: `c`, `celsius`, `f`, `fahrenheit`, `k`, `kelvin`, matched
/// case-insensitively; an unrecognized name is reported as an error, the
/// `from` side first.
pub fn convert_temperature(value: &Rat, from: &str, to: &str) -> (r: Result<Rat, ConversionError>)
    requires
        value.wf(),
    ensures
        dispatch_ok::<TemperatureUnit>(r, value@, from@, to@),
{
    convert_str::<TemperatureUnit>(value, from, to)
}

} // verus!
