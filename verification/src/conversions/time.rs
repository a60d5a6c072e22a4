//! Time conversions. Base unit: the second.
//!
//! Factors are exact: 60 s/min, 3600 s/h, 86400 s/day, 604800 s/week,
//! 31557600 s/year (a Julian year of 365.25 days), and the metric
//! subdivisions down to the nanosecond.

use vstd::prelude::*;
use crate::casefold::eq_fold;
use crate::dispatch::{
    Family, UnitFamily, ConversionError, convert_str, convert_units, convert_outcome, dispatch_ok,
};
use crate::rational::Rat;
use crate::rule::{Rule, RuleQ, scale_q, to_base_q, to_base_fits, from_base_q, from_base_fits};

verus! {

/// The supported time units.
#[derive(Clone, Copy, PartialEq, Eq, Structural, Debug)]
pub enum TimeUnit {
    Second,
    Minute,
    Hour,
    Day,
    Week,
    Year,
    Millisecond,
    Microsecond,
    Nanosecond,
}

impl UnitFamily for TimeUnit {
    open spec fn lookup(name: Seq<char>) -> Option<TimeUnit> {
        if name == "s"@ || name == "sec"@ || name == "second"@ || name == "seconds"@ {
            Some(TimeUnit::Second)
        } else if name == "min"@ || name == "minute"@ || name == "minutes"@ {
            Some(TimeUnit::Minute)
        } else if name == "h"@ || name == "hr"@ || name == "hour"@ || name == "hours"@ {
            Some(TimeUnit::Hour)
        } else if name == "d"@ || name == "day"@ || name == "days"@ {
            Some(TimeUnit::Day)
        } else if name == "w"@ || name == "week"@ || name == "weeks"@ {
            Some(TimeUnit::Week)
        } else if name == "y"@ || name == "year"@ || name == "years"@ {
            Some(TimeUnit::Year)
        } else if name == "ms"@ || name == "millisecond"@ || name == "milliseconds"@ {
            Some(TimeUnit::Millisecond)
        } else if name == "us"@ || name == "μs"@ || name == "microsecond"@ || name == "microseconds"@ {
            Some(TimeUnit::Microsecond)
        } else if name == "ns"@ || name == "nanosecond"@ || name == "nanoseconds"@ {
            Some(TimeUnit::Nanosecond)
        } else {
            None
        }
    }

    open spec fn spec_family() -> Family {
        Family::Time
    }

    open spec fn rule_q(self) -> RuleQ {
        match self {
            TimeUnit::Second => scale_q(1, 1),
            TimeUnit::Minute => scale_q(60, 1),
            TimeUnit::Hour => scale_q(3600, 1),
            TimeUnit::Day => scale_q(86400, 1),
            TimeUnit::Week => scale_q(604800, 1),
            TimeUnit::Year => scale_q(31557600, 1),
            TimeUnit::Millisecond => scale_q(1, 1000),
            TimeUnit::Microsecond => scale_q(1, 1000000),
            TimeUnit::Nanosecond => scale_q(1, 1000000000),
        }
    }

    proof fn lemma_rule_wf(self) {
    }

    fn parse(name: &str) -> (r: Option<TimeUnit>) {
        if eq_fold(name, "s") || eq_fold(name, "sec") || eq_fold(name, "second") || eq_fold(name, "seconds") {
            Some(TimeUnit::Second)
        } else if eq_fold(name, "min") || eq_fold(name, "minute") || eq_fold(name, "minutes") {
            Some(TimeUnit::Minute)
        } else if eq_fold(name, "h") || eq_fold(name, "hr") || eq_fold(name, "hour") || eq_fold(name, "hours") {
            Some(TimeUnit::Hour)
        } else if eq_fold(name, "d") || eq_fold(name, "day") || eq_fold(name, "days") {
            Some(TimeUnit::Day)
        } else if eq_fold(name, "w") || eq_fold(name, "week") || eq_fold(name, "weeks") {
            Some(TimeUnit::Week)
        } else if eq_fold(name, "y") || eq_fold(name, "year") || eq_fold(name, "years") {
            Some(TimeUnit::Year)
        } else if eq_fold(name, "ms") || eq_fold(name, "millisecond") || eq_fold(name, "milliseconds") {
            Some(TimeUnit::Millisecond)
        } else if eq_fold(name, "us") || eq_fold(name, "μs") || eq_fold(name, "microsecond") || eq_fold(name, "microseconds") {
            Some(TimeUnit::Microsecond)
        } else if eq_fold(name, "ns") || eq_fold(name, "nanosecond") || eq_fold(name, "nanoseconds") {
            Some(TimeUnit::Nanosecond)
        } else {
            None
        }
    }

    fn family() -> (f: Family) {
        Family::Time
    }

    fn rule(self) -> (r: Rule) {
        match self {
            TimeUnit::Second => Rule::scale(1, 1),
            TimeUnit::Minute => Rule::scale(60, 1),
            TimeUnit::Hour => Rule::scale(3600, 1),
            TimeUnit::Day => Rule::scale(86400, 1),
            TimeUnit::Week => Rule::scale(604800, 1),
            TimeUnit::Year => Rule::scale(31557600, 1),
            TimeUnit::Millisecond => Rule::scale(1, 1000),
            TimeUnit::Microsecond => Rule::scale(1, 1000000),
            TimeUnit::Nanosecond => Rule::scale(1, 1000000000),
        }
    }

    fn unit_eq(self, other: TimeUnit) -> (r: bool) {
        self == other
    }
}

/// The magnitude of `value` in seconds.
pub fn to_base(value: &Rat, unit: TimeUnit) -> (r: Option<Rat>)
    requires
        value.wf(),
    ensures
        r matches Some(w) ==> w.wf() && w@ == to_base_q(unit.rule_q(), value@),
        r is None <==> !to_base_fits(unit.rule_q(), value@),
{
    proof {
        unit.lemma_rule_wf();
    }
    crate::rule::to_base(value, &unit.rule())
}

/// The magnitude in `unit` of a value of `value` seconds.
pub fn from_base(value: &Rat, unit: TimeUnit) -> (r: Option<Rat>)
    requires
        value.wf(),
    ensures
        r matches Some(w) ==> w.wf() && w@ == from_base_q(unit.rule_q(), value@),
        r is None <==> !from_base_fits(unit.rule_q(), value@),
{
    proof {
        unit.lemma_rule_wf();
    }
    crate::rule::from_base(value, &unit.rule())
}

/// Converts a magnitude between two resolved time units, routing
/// through seconds; a same-unit conversion returns the value
/// unchanged.
pub fn convert(value: &Rat, from: TimeUnit, to: TimeUnit) -> (r: Option<Rat>)
    requires
        value.wf(),
    ensures
        r is Some <==> convert_outcome(from, to, value@) is Some,
        r matches Some(w) ==> w.wf() && Some(w@) == convert_outcome(from, to, value@),
        from == to ==> r == Some(*value),
{
    convert_units(value, from, to)
}

/// Converts between any two supported time units given by name.
///
/// Names: `s`, `sec`, `second(s)`, `min`, `minute(s)`, `h`, `hr`,
/// `hour(s)`, `d`, `day(s)`, `w`, `week(s)`, `y`, `year(s)`, `ms`,
/// `millisecond(s)`, `us`, `μs`, `microsecond(s)`, `ns`, `nanosecond(s)`.
/// Names are matched case-insensitively; an unrecognized name is reported
/// as an error, the `from` side first.
pub fn convert_time(value: &Rat, from: &str, to: &str) -> (r: Result<Rat, ConversionError>)
    requires
        value.wf(),
    ensures
        dispatch_ok::<TimeUnit>(r, value@, from@, to@),
{
    convert_str::<TimeUnit>(value, from, to)
}

} // verus!
