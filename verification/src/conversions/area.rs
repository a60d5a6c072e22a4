//! Area conversions. Base unit: the square meter.
//!
//! Conversion factors, as exact fractions of the published constants:
//! 1 square meter = 1550.0031 square inches = 10.763910417 square feet
//! = 1.1959900463 square yards; 1 acre = 4046.8564224 square meters;
//! 1 square mile = 2589988.110336 square meters. The superscript names
//! (`m²`) and their ASCII spellings (`m2`, `sq_m`) are both recognized.

use vstd::prelude::*;
use crate::casefold::eq_fold;
use crate::dispatch::{
    Family, UnitFamily, ConversionError, convert_str, convert_units, convert_outcome, dispatch_ok,
};
use crate::rational::Rat;
use crate::rule::{Rule, RuleQ, scale_q, to_base_q, to_base_fits, from_base_q, from_base_fits};

verus! {

/// The supported area units.
#[derive(Clone, Copy, PartialEq, Eq, Structural, Debug)]
pub enum AreaUnit {
    SquareMeter,
    SquareMillimeter,
    SquareCentimeter,
    SquareKilometer,
    SquareInch,
    SquareFoot,
    SquareYard,
    Acre,
    Hectare,
    SquareMile,
}

impl UnitFamily for AreaUnit {
    open spec fn lookup(name: Seq<char>) -> Option<AreaUnit> {
        if name == "m²"@ || name == "m2"@ || name == "sq_m"@ || name == "square_meters"@ {
            Some(AreaUnit::SquareMeter)
        } else if name == "mm²"@ || name == "mm2"@ || name == "sq_mm"@ || name == "square_millimeters"@ {
            Some(AreaUnit::SquareMillimeter)
        } else if name == "cm²"@ || name == "cm2"@ || name == "sq_cm"@ || name == "square_centimeters"@ {
            Some(AreaUnit::SquareCentimeter)
        } else if name == "km²"@ || name == "km2"@ || name == "sq_km"@ || name == "square_kilometers"@ {
            Some(AreaUnit::SquareKilometer)
        } else if name == "in²"@ || name == "in2"@ || name == "sq_in"@ || name == "square_inches"@ {
            Some(AreaUnit::SquareInch)
        } else if name == "ft²"@ || name == "ft2"@ || name == "sq_ft"@ || name == "square_feet"@ {
            Some(AreaUnit::SquareFoot)
        } else if name == "yd²"@ || name == "yd2"@ || name == "sq_yd"@ || name == "square_yards"@ {
            Some(AreaUnit::SquareYard)
        } else if name == "ac"@ || name == "acre"@ || name == "acres"@ {
            Some(AreaUnit::Acre)
        } else if name == "ha"@ || name == "hectare"@ || name == "hectares"@ {
            Some(AreaUnit::Hectare)
        } else if name == "mi²"@ || name == "mi2"@ || name == "sq_mi"@ || name == "square_miles"@ {
            Some(AreaUnit::SquareMile)
        } else {
            None
        }
    }

    open spec fn spec_family() -> Family {
        Family::Area
    }

    open spec fn rule_q(self) -> RuleQ {
        match self {
            AreaUnit::SquareMeter => scale_q(1, 1),
            AreaUnit::SquareMillimeter => scale_q(1, 1000000),
            AreaUnit::SquareCentimeter => scale_q(1, 10000),
            AreaUnit::SquareKilometer => scale_q(1000000, 1),
            AreaUnit::SquareInch => scale_q(10000, 15500031),
            AreaUnit::SquareFoot => scale_q(1000000000, 10763910417),
            AreaUnit::SquareYard => scale_q(10000000000, 11959900463),
            AreaUnit::Acre => scale_q(40468564224, 10000000),
            AreaUnit::Hectare => scale_q(10000, 1),
            AreaUnit::SquareMile => scale_q(2589988110336, 1000000),
        }
    }

    proof fn lemma_rule_wf(self) {
    }

    fn parse(name: &str) -> (r: Option<AreaUnit>) {
        if eq_fold(name, "m²") || eq_fold(name, "m2") || eq_fold(name, "sq_m") || eq_fold(name, "square_meters") {
            Some(AreaUnit::SquareMeter)
        } else if eq_fold(name, "mm²") || eq_fold(name, "mm2") || eq_fold(name, "sq_mm") || eq_fold(name, "square_millimeters") {
            Some(AreaUnit::SquareMillimeter)
        } else if eq_fold(name, "cm²") || eq_fold(name, "cm2") || eq_fold(name, "sq_cm") || eq_fold(name, "square_centimeters") {
            Some(AreaUnit::SquareCentimeter)
        } else if eq_fold(name, "km²") || eq_fold(name, "km2") || eq_fold(name, "sq_km") || eq_fold(name, "square_kilometers") {
            Some(AreaUnit::SquareKilometer)
        } else if eq_fold(name, "in²") || eq_fold(name, "in2") || eq_fold(name, "sq_in") || eq_fold(name, "square_inches") {
            Some(AreaUnit::SquareInch)
        } else if eq_fold(name, "ft²") || eq_fold(name, "ft2") || eq_fold(name, "sq_ft") || eq_fold(name, "square_feet") {
            Some(AreaUnit::SquareFoot)
        } else if eq_fold(name, "yd²") || eq_fold(name, "yd2") || eq_fold(name, "sq_yd") || eq_fold(name, "square_yards") {
            Some(AreaUnit::SquareYard)
        } else if eq_fold(name, "ac") || eq_fold(name, "acre") || eq_fold(name, "acres") {
            Some(AreaUnit::Acre)
        } else if eq_fold(name, "ha") || eq_fold(name, "hectare") || eq_fold(name, "hectares") {
            Some(AreaUnit::Hectare)
        } else if eq_fold(name, "mi²") || eq_fold(name, "mi2") || eq_fold(name, "sq_mi") || eq_fold(name, "square_miles") {
            Some(AreaUnit::SquareMile)
        } else {
            None
        }
    }

    fn family() -> (f: Family) {
        Family::Area
    }

    fn rule(self) -> (r: Rule) {
        match self {
            AreaUnit::SquareMeter => Rule::scale(1, 1),
            AreaUnit::SquareMillimeter => Rule::scale(1, 1000000),
            AreaUnit::SquareCentimeter => Rule::scale(1, 10000),
            AreaUnit::SquareKilometer => Rule::scale(1000000, 1),
            AreaUnit::SquareInch => Rule::scale(10000, 15500031),
            AreaUnit::SquareFoot => Rule::scale(1000000000, 10763910417),
            AreaUnit::SquareYard => Rule::scale(10000000000, 11959900463),
            AreaUnit::Acre => Rule::scale(40468564224, 10000000),
            AreaUnit::Hectare => Rule::scale(10000, 1),
            AreaUnit::SquareMile => Rule::scale(2589988110336, 1000000),
        }
    }

    fn unit_eq(self, other: AreaUnit) -> (r: bool) {
        self == other
    }
}

/// The magnitude of `value` in square meters.
pub fn to_base(value: &Rat, unit: AreaUnit) -> (r: Option<Rat>)
    requires
        value.wf(),
    ensures
        r matches Some(w) ==> w.wf() && w@ == to_base_q(unit.rule_q(), value@),
        r is None <==> !to_base_fits(unit.rule_q(), value@),
{
    proof {
        unit.lemma_rule_wf();
    }
    crate::rule::to_base(value, &unit.rule())
}

/// The magnitude in `unit` of a value of `value` square meters.
pub fn from_base(value: &Rat, unit: AreaUnit) -> (r: Option<Rat>)
    requires
        value.wf(),
    ensures
        r matches Some(w) ==> w.wf() && w@ == from_base_q(unit.rule_q(), value@),
        r is None <==> !from_base_fits(unit.rule_q(), value@),
{
    proof {
        unit.lemma_rule_wf();
    }
    crate::rule::from_base(value, &unit.rule())
}

/// Converts a magnitude between two resolved area units, routing
/// through square meters; a same-unit conversion returns the value
/// unchanged.
pub fn convert(value: &Rat, from: AreaUnit, to: AreaUnit) -> (r: Option<Rat>)
    requires
        value.wf(),
    ensures
        r is Some <==> convert_outcome(from, to, value@) is Some,
        r matches Some(w) ==> w.wf() && Some(w@) == convert_outcome(from, to, value@),
        from == to ==> r == Some(*value),
{
    convert_units(value, from, to)
}

/// Converts between any two supported area units given by name.
///
/// Names: `m²`, `m2`, `sq_m`, `square_meters`, and likewise for `mm²`,
/// `cm²`, `km²`, `in²`, `ft²`, `yd²` and `mi²`; `ac`, `acre(s)`, `ha`,
/// `hectare(s)`. Names are matched case-insensitively; an unrecognized
/// name is reported as an error, the `from` side first.
pub fn convert_area(value: &Rat, from: &str, to: &str) -> (r: Result<Rat, ConversionError>)
    requires
        value.wf(),
    ensures
        dispatch_ok::<AreaUnit>(r, value@, from@, to@),
{
    convert_str::<AreaUnit>(value, from, to)
}

} // verus!
