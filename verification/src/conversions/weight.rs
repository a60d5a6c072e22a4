//! Weight and mass conversions. Base unit: the kilogram.
//!
//! Conversion factors, as exact fractions of the published constants:
//! 1 kilogram = 2.20462 pounds = 35.274 ounces; 1 stone = 6.35029 kilograms;
//! 1 metric ton = 1000 kilograms.

use vstd::prelude::*;
use crate::casefold::eq_fold;
use crate::dispatch::{
    Family, UnitFamily, ConversionError, convert_str, convert_units, convert_outcome, dispatch_ok,
};
use crate::rational::Rat;
use crate::rule::{Rule, RuleQ, scale_q, to_base_q, to_base_fits, from_base_q, from_base_fits};

verus! {

/// The supported weight/mass units.
#[derive(Clone, Copy, PartialEq, Eq, Structural, Debug)]
pub enum WeightUnit {
    Kilogram,
    Gram,
    Pound,
    Ounce,
    Ton,
    Stone,
}

impl UnitFamily for WeightUnit {
    open spec fn lookup(name: Seq<char>) -> Option<WeightUnit> {
        if name == "kg"@ || name == "kilogram"@ || name == "kilograms"@ {
            Some(WeightUnit::Kilogram)
        } else if name == "g"@ || name == "gram"@ || name == "grams"@ {
            Some(WeightUnit::Gram)
        } else if name == "lb"@ || name == "lbs"@ || name == "pound"@ || name == "pounds"@ {
            Some(WeightUnit::Pound)
        } else if name == "oz"@ || name == "ounce"@ || name == "ounces"@ {
            Some(WeightUnit::Ounce)
        } else if name == "t"@ || name == "ton"@ || name == "tons"@ {
            Some(WeightUnit::Ton)
        } else if name == "st"@ || name == "stone"@ || name == "stones"@ {
            Some(WeightUnit::Stone)
        } else {
            None
        }
    }

    open spec fn spec_family() -> Family {
        Family::Weight
    }

    open spec fn rule_q(self) -> RuleQ {
        match self {
            WeightUnit::Kilogram => scale_q(1, 1),
            WeightUnit::Gram => scale_q(1, 1000),
            WeightUnit::Pound => scale_q(100000, 220462),
            WeightUnit::Ounce => scale_q(1000, 35274),
            WeightUnit::Ton => scale_q(1000, 1),
            WeightUnit::Stone => scale_q(635029, 100000),
        }
    }

    proof fn lemma_rule_wf(self) {
    }

    fn parse(name: &str) -> (r: Option<WeightUnit>) {
        if eq_fold(name, "kg") || eq_fold(name, "kilogram") || eq_fold(name, "kilograms") {
            Some(WeightUnit::Kilogram)
        } else if eq_fold(name, "g") || eq_fold(name, "gram") || eq_fold(name, "grams") {
            Some(WeightUnit::Gram)
        } else if eq_fold(name, "lb") || eq_fold(name, "lbs") || eq_fold(name, "pound") || eq_fold(name, "pounds") {
            Some(WeightUnit::Pound)
        } else if eq_fold(name, "oz") || eq_fold(name, "ounce") || eq_fold(name, "ounces") {
            Some(WeightUnit::Ounce)
        } else if eq_fold(name, "t") || eq_fold(name, "ton") || eq_fold(name, "tons") {
            Some(WeightUnit::Ton)
        } else if eq_fold(name, "st") || eq_fold(name, "stone") || eq_fold(name, "stones") {
            Some(WeightUnit::Stone)
        } else {
            None
        }
    }

    fn family() -> (f: Family) {
        Family::Weight
    }

    fn rule(self) -> (r: Rule) {
        match self {
            WeightUnit::Kilogram => Rule::scale(1, 1),
            WeightUnit::Gram => Rule::scale(1, 1000),
            WeightUnit::Pound => Rule::scale(100000, 220462),
            WeightUnit::Ounce => Rule::scale(1000, 35274),
            WeightUnit::Ton => Rule::scale(1000, 1),
            WeightUnit::Stone => Rule::scale(635029, 100000),
        }
    }

    fn unit_eq(self, other: WeightUnit) -> (r: bool) {
        self == other
    }
}

/// The magnitude of `value` in kilograms.
pub fn to_base(value: &Rat, unit: WeightUnit) -> (r: Option<Rat>)
    requires
        value.wf(),
    ensures
        r matches Some(w) ==> w.wf() && w@ == to_base_q(unit.rule_q(), value@),
        r is None <==> !to_base_fits(unit.rule_q(), value@),
{
    proof {
        unit.lemma_rule_wf();
    }
    crate::rule::to_base(value, &unit.rule())
}

/// The magnitude in `unit` of a value of `value` kilograms.
pub fn from_base(value: &Rat, unit: WeightUnit) -> (r: Option<Rat>)
    requires
        value.wf(),
    ensures
        r matches Some(w) ==> w.wf() && w@ == from_base_q(unit.rule_q(), value@),
        r is None <==> !from_base_fits(unit.rule_q(), value@),
{
    proof {
        unit.lemma_rule_wf();
    }
    crate::rule::from_base(value, &unit.rule())
}

/// Converts a magnitude between two resolved weight/mass units, routing
/// through kilograms; a same-unit conversion returns the value
/// unchanged.
pub fn convert(value: &Rat, from: WeightUnit, to: WeightUnit) -> (r: Option<Rat>)
    requires
        value.wf(),
    ensures
        r is Some <==> convert_outcome(from, to, value@) is Some,
        r matches Some(w) ==> w.wf() && Some(w@) == convert_outcome(from, to, value@),
        from == to ==> r == Some(*value),
{
    convert_units(value, from, to)
}

/// Converts between any two supported weight/mass units given by name.
///
/// Names: `kg`, `kilogram(s)`, `g`, `gram(s)`, `lb`, `lbs`, `pound(s)`,
/// `oz`, `ounce(s)`, `t`, `ton(s)`, `st`, `stone(s)`. Names are matched
/// case-insensitively; an unrecognized name is reported as an error, the
/// `from` side first.
pub fn convert_weight(value: &Rat, from: &str, to: &str) -> (r: Result<Rat, ConversionError>)
    requires
        value.wf(),
    ensures
        dispatch_ok::<WeightUnit>(r, value@, from@, to@),
{
    convert_str::<WeightUnit>(value, from, to)
}

} // verus!
