//! Luminous intensity conversions. Base unit: the candela.
//!
//! Conversion factors, as exact fractions of the published constants:
//! 1 candela = 1.11 hefnerkerze = 0.98 international candles
//! = 1 decimal candle.

use vstd::prelude::*;
use crate::casefold::eq_fold;
use crate::dispatch::{
    Family, UnitFamily, ConversionError, convert_str, convert_units, convert_outcome, dispatch_ok,
};
use crate::rational::Rat;
use crate::rule::{Rule, RuleQ, scale_q, to_base_q, to_base_fits, from_base_q, from_base_fits};

verus! {

/// The supported luminous-intensity units.
#[derive(Clone, Copy, PartialEq, Eq, Structural, Debug)]
pub enum LuminousIntensityUnit {
    Candela,
    Millicandela,
    Kilocandela,
    Hefnerkerze,
    InternationalCandle,
    DecimalCandle,
}

impl UnitFamily for LuminousIntensityUnit {
    open spec fn lookup(name: Seq<char>) -> Option<LuminousIntensityUnit> {
        if name == "cd"@ || name == "candela"@ {
            Some(LuminousIntensityUnit::Candela)
        } else if name == "mcd"@ || name == "millicandela"@ {
            Some(LuminousIntensityUnit::Millicandela)
        } else if name == "kcd"@ || name == "kilocandela"@ {
            Some(LuminousIntensityUnit::Kilocandela)
        } else if name == "hk"@ || name == "hefnerkerze"@ {
            Some(LuminousIntensityUnit::Hefnerkerze)
        } else if name == "ic"@ || name == "international_candle"@ || name == "intl_candle"@ {
            Some(LuminousIntensityUnit::InternationalCandle)
        } else if name == "dc"@ || name == "decimal_candle"@ {
            Some(LuminousIntensityUnit::DecimalCandle)
        } else {
            None
        }
    }

    open spec fn spec_family() -> Family {
        Family::LuminousIntensity
    }

    open spec fn rule_q(self) -> RuleQ {
        match self {
            LuminousIntensityUnit::Candela => scale_q(1, 1),
            LuminousIntensityUnit::Millicandela => scale_q(1, 1000),
            LuminousIntensityUnit::Kilocandela => scale_q(1000, 1),
            LuminousIntensityUnit::Hefnerkerze => scale_q(100, 111),
            LuminousIntensityUnit::InternationalCandle => scale_q(100, 98),
            LuminousIntensityUnit::DecimalCandle => scale_q(1, 1),
        }
    }

    proof fn lemma_rule_wf(self) {
    }

    fn parse(name: &str) -> (r: Option<LuminousIntensityUnit>) {
        if eq_fold(name, "cd") || eq_fold(name, "candela") {
            Some(LuminousIntensityUnit::Candela)
        } else if eq_fold(name, "mcd") || eq_fold(name, "millicandela") {
            Some(LuminousIntensityUnit::Millicandela)
        } else if eq_fold(name, "kcd") || eq_fold(name, "kilocandela") {
            Some(LuminousIntensityUnit::Kilocandela)
        } else if eq_fold(name, "hk") || eq_fold(name, "hefnerkerze") {
            Some(LuminousIntensityUnit::Hefnerkerze)
        } else if eq_fold(name, "ic") || eq_fold(name, "international_candle") || eq_fold(name, "intl_candle") {
            Some(LuminousIntensityUnit::InternationalCandle)
        } else if eq_fold(name, "dc") || eq_fold(name, "decimal_candle") {
            Some(LuminousIntensityUnit::DecimalCandle)
        } else {
            None
        }
    }

    fn family() -> (f: Family) {
        Family::LuminousIntensity
    }

    fn rule(self) -> (r: Rule) {
        match self {
            LuminousIntensityUnit::Candela => Rule::scale(1, 1),
            LuminousIntensityUnit::Millicandela => Rule::scale(1, 1000),
            LuminousIntensityUnit::Kilocandela => Rule::scale(1000, 1),
            LuminousIntensityUnit::Hefnerkerze => Rule::scale(100, 111),
            LuminousIntensityUnit::InternationalCandle => Rule::scale(100, 98),
            LuminousIntensityUnit::DecimalCandle => Rule::scale(1, 1),
        }
    }

    fn unit_eq(self, other: LuminousIntensityUnit) -> (r: bool) {
        self == other
    }
}

/// The magnitude of `value` in candela.
pub fn to_base(value: &Rat, unit: LuminousIntensityUnit) -> (r: Option<Rat>)
    requires
        value.wf(),
    ensures
        r matches Some(w) ==> w.wf() && w@ == to_base_q(unit.rule_q(), value@),
        r is None <==> !to_base_fits(unit.rule_q(), value@),
{
    proof {
        unit.lemma_rule_wf();
    }
    crate::rule::to_base(value, &unit.rule())
}

/// The magnitude in `unit` of a value of `value` candela.
pub fn from_base(value: &Rat, unit: LuminousIntensityUnit) -> (r: Option<Rat>)
    requires
        value.wf(),
    ensures
        r matches Some(w) ==> w.wf() && w@ == from_base_q(unit.rule_q(), value@),
        r is None <==> !from_base_fits(unit.rule_q(), value@),
{
    proof {
        unit.lemma_rule_wf();
    }
    crate::rule::from_base(value, &unit.rule())
}

/// Converts a magnitude between two resolved luminous-intensity units, routing
/// through candela; a same-unit conversion returns the value
/// unchanged.
pub fn convert(value: &Rat, from: LuminousIntensityUnit, to: LuminousIntensityUnit) -> (r: Option<Rat>)
    requires
        value.wf(),
    ensures
        r is Some <==> convert_outcome(from, to, value@) is Some,
        r matches Some(w) ==> w.wf() && Some(w@) == convert_outcome(from, to, value@),
        from == to ==> r == Some(*value),
{
    convert_units(value, from, to)
}

/// Converts between any two supported luminous-intensity units given by name.
///
/// Names: `cd`, `candela`, `mcd`, `millicandela`, `kcd`, `kilocandela`,
/// `hk`, `hefnerkerze`, `ic`, `international_candle`, `intl_candle`, `dc`,
/// `decimal_candle`. Names are matched case-insensitively; an unrecognized
/// name is reported as an error, the `from` side first.
pub fn convert_luminous_intensity(value: &Rat, from: &str, to: &str) -> (r: Result<Rat, ConversionError>)
    requires
        value.wf(),
    ensures
        dispatch_ok::<LuminousIntensityUnit>(r, value@, from@, to@),
{
    convert_str::<LuminousIntensityUnit>(value, from, to)
}

} // verus!
