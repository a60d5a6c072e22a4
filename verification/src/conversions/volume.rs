//! Volume conversions. Base unit: the liter.
//!
//! Conversion factors, as exact fractions of the published constants:
//! 1 US gallon = 3.78541 liters; 1 UK gallon = 4.54609 liters;
//! 1 liter = 33.814 US fluid ounces = 35.1951 UK fluid ounces
//! = 4.22675 US cups = 2.11338 US pints = 1.05669 US quarts.

use vstd::prelude::*;
use crate::casefold::eq_fold;
use crate::dispatch::{
    Family, UnitFamily, ConversionError, convert_str, convert_units, convert_outcome, dispatch_ok,
};
use crate::rational::Rat;
use crate::rule::{Rule, RuleQ, scale_q, to_base_q, to_base_fits, from_base_q, from_base_fits};

verus! {

/// The supported volume units.
#[derive(Clone, Copy, PartialEq, Eq, Structural, Debug)]
pub enum VolumeUnit {
    Liter,
    Milliliter,
    GallonUs,
    GallonUk,
    FluidOunceUs,
    FluidOunceUk,
    CupUs,
    PintUs,
    QuartUs,
}

impl UnitFamily for VolumeUnit {
    open spec fn lookup(name: Seq<char>) -> Option<VolumeUnit> {
        if name == "l"@ || name == "liter"@ || name == "liters"@ || name == "litre"@ || name == "litres"@ {
            Some(VolumeUnit::Liter)
        } else if name == "ml"@ || name == "milliliter"@ || name == "milliliters"@ || name == "millilitre"@ || name == "millilitres"@ {
            Some(VolumeUnit::Milliliter)
        } else if name == "gal"@ || name == "gallon"@ || name == "gallons"@ || name == "gal_us"@ {
            Some(VolumeUnit::GallonUs)
        } else if name == "gal_uk"@ || name == "gallon_uk"@ || name == "gallons_uk"@ {
            Some(VolumeUnit::GallonUk)
        } else if name == "fl_oz"@ || name == "fl_oz_us"@ || name == "fluid_ounce"@ || name == "fluid_ounces"@ {
            Some(VolumeUnit::FluidOunceUs)
        } else if name == "fl_oz_uk"@ || name == "fluid_ounce_uk"@ || name == "fluid_ounces_uk"@ {
            Some(VolumeUnit::FluidOunceUk)
        } else if name == "cup"@ || name == "cups"@ || name == "cup_us"@ {
            Some(VolumeUnit::CupUs)
        } else if name == "pt"@ || name == "pint"@ || name == "pints"@ || name == "pt_us"@ {
            Some(VolumeUnit::PintUs)
        } else if name == "qt"@ || name == "quart"@ || name == "quarts"@ || name == "qt_us"@ {
            Some(VolumeUnit::QuartUs)
        } else {
            None
        }
    }

    open spec fn spec_family() -> Family {
        Family::Volume
    }

    open spec fn rule_q(self) -> RuleQ {
        match self {
            VolumeUnit::Liter => scale_q(1, 1),
            VolumeUnit::Milliliter => scale_q(1, 1000),
            VolumeUnit::GallonUs => scale_q(378541, 100000),
            VolumeUnit::GallonUk => scale_q(454609, 100000),
            VolumeUnit::FluidOunceUs => scale_q(1000, 33814),
            VolumeUnit::FluidOunceUk => scale_q(10000, 351951),
            VolumeUnit::CupUs => scale_q(100000, 422675),
            VolumeUnit::PintUs => scale_q(100000, 211338),
            VolumeUnit::QuartUs => scale_q(100000, 105669),
        }
    }

    proof fn lemma_rule_wf(self) {
    }

    fn parse(name: &str) -> (r: Option<VolumeUnit>) {
        if eq_fold(name, "l") || eq_fold(name, "liter") || eq_fold(name, "liters") || eq_fold(name, "litre") || eq_fold(name, "litres") {
            Some(VolumeUnit::Liter)
        } else if eq_fold(name, "ml") || eq_fold(name, "milliliter") || eq_fold(name, "milliliters") || eq_fold(name, "millilitre") || eq_fold(name, "millilitres") {
            Some(VolumeUnit::Milliliter)
        } else if eq_fold(name, "gal") || eq_fold(name, "gallon") || eq_fold(name, "gallons") || eq_fold(name, "gal_us") {
            Some(VolumeUnit::GallonUs)
        } else if eq_fold(name, "gal_uk") || eq_fold(name, "gallon_uk") || eq_fold(name, "gallons_uk") {
            Some(VolumeUnit::GallonUk)
        } else if eq_fold(name, "fl_oz") || eq_fold(name, "fl_oz_us") || eq_fold(name, "fluid_ounce") || eq_fold(name, "fluid_ounces") {
            Some(VolumeUnit::FluidOunceUs)
        } else if eq_fold(name, "fl_oz_uk") || eq_fold(name, "fluid_ounce_uk") || eq_fold(name, "fluid_ounces_uk") {
            Some(VolumeUnit::FluidOunceUk)
        } else if eq_fold(name, "cup") || eq_fold(name, "cups") || eq_fold(name, "cup_us") {
            Some(VolumeUnit::CupUs)
        } else if eq_fold(name, "pt") || eq_fold(name, "pint") || eq_fold(name, "pints") || eq_fold(name, "pt_us") {
            Some(VolumeUnit::PintUs)
        } else if eq_fold(name, "qt") || eq_fold(name, "quart") || eq_fold(name, "quarts") || eq_fold(name, "qt_us") {
            Some(VolumeUnit::QuartUs)
        } else {
            None
        }
    }

    fn family() -> (f: Family) {
        Family::Volume
    }

    fn rule(self) -> (r: Rule) {
        match self {
            VolumeUnit::Liter => Rule::scale(1, 1),
            VolumeUnit::Milliliter => Rule::scale(1, 1000),
            VolumeUnit::GallonUs => Rule::scale(378541, 100000),
            VolumeUnit::GallonUk => Rule::scale(454609, 100000),
            VolumeUnit::FluidOunceUs => Rule::scale(1000, 33814),
            VolumeUnit::FluidOunceUk => Rule::scale(10000, 351951),
            VolumeUnit::CupUs => Rule::scale(100000, 422675),
            VolumeUnit::PintUs => Rule::scale(100000, 211338),
            VolumeUnit::QuartUs => Rule::scale(100000, 105669),
        }
    }

    fn unit_eq(self, other: VolumeUnit) -> (r: bool) {
        self == other
    }
}

/// The magnitude of `value` in liters.
pub fn to_base(value: &Rat, unit: VolumeUnit) -> (r: Option<Rat>)
    requires
        value.wf(),
    ensures
        r matches Some(w) ==> w.wf() && w@ == to_base_q(unit.rule_q(), value@),
        r is None <==> !to_base_fits(unit.rule_q(), value@),
{
    proof {
        unit.lemma_rule_wf();
    }
    crate::rule::to_base(value, &unit.rule())
}

/// The magnitude in `unit` of a value of `value` liters.
pub fn from_base(value: &Rat, unit: VolumeUnit) -> (r: Option<Rat>)
    requires
        value.wf(),
    ensures
        r matches Some(w) ==> w.wf() && w@ == from_base_q(unit.rule_q(), value@),
        r is None <==> !from_base_fits(unit.rule_q(), value@),
{
    proof {
        unit.lemma_rule_wf();
    }
    crate::rule::from_base(value, &unit.rule())
}

/// Converts a magnitude between two resolved volume units, routing
/// through liters; a same-unit conversion returns the value
/// unchanged.
pub fn convert(value: &Rat, from: VolumeUnit, to: VolumeUnit) -> (r: Option<Rat>)
    requires
        value.wf(),
    ensures
        r is Some <==> convert_outcome(from, to, value@) is Some,
        r matches Some(w) ==> w.wf() && Some(w@) == convert_outcome(from, to, value@),
        from == to ==> r == Some(*value),
{
    convert_units(value, from, to)
}

/// Converts between any two supported volume units given by name.
///
/// Names: `l`, `liter(s)`, `litre(s)`, `ml`, `milliliter(s)`,
/// `millilitre(s)`, `gal`, `gallon(s)`, `gal_us`, `gal_uk`, `gallon_uk`,
/// `gallons_uk`, `fl_oz`, `fl_oz_us`, `fluid_ounce(s)`, `fl_oz_uk`,
/// `fluid_ounce_uk`, `fluid_ounces_uk`, `cup(s)`, `cup_us`, `pt`,
/// `pint(s)`, `pt_us`, `qt`, `quart(s)`, `qt_us`. Names are matched
/// case-insensitively; an unrecognized name is reported as an error, the
/// `from` side first.
pub fn convert_volume(value: &Rat, from: &str, to: &str) -> (r: Result<Rat, ConversionError>)
    requires
        value.wf(),
    ensures
        dispatch_ok::<VolumeUnit>(r, value@, from@, to@),
{
    convert_str::<VolumeUnit>(value, from, to)
}

} // verus!
