//! The catalog of unit names offered per family, for callers that present
//! a menu of choices.

use vstd::prelude::*;
use crate::casefold::lower_seq;

verus! {

/// The unit names offered for a family, keyed by the case-folded family
/// name; an unknown family name yields the empty list.
pub open spec fn supported_units(conversion_type: Seq<char>) -> Seq<Seq<char>> {
    let kind = lower_seq(conversion_type);
    if kind == "length"@ {
        seq!["m"@, "km"@, "cm"@, "mm"@, "ft"@, "in"@, "yd"@, "mi"@, "nm"@, "μm"@]
    } else if kind == "weight"@ || kind == "mass"@ {
        seq!["kg"@, "g"@, "mg"@, "lb"@, "oz"@, "t"@, "st"@, "grain"@, "carat"@]
    } else if kind == "temperature"@ {
        seq!["C"@, "F"@, "K"@]
    } else if kind == "volume"@ {
        seq![
            "l"@,
            "ml"@,
            "gal"@,
            "gal_uk"@,
            "fl_oz"@,
            "fl_oz_uk"@,
            "cup"@,
            "pt"@,
            "qt"@,
            "tbsp"@,
            "tsp"@,
        ]
    } else if kind == "time"@ {
        seq!["s"@, "min"@, "h"@, "d"@, "week"@, "month"@, "year"@, "ms"@, "μs"@, "ns"@]
    } else if kind == "current"@ {
        seq!["A"@, "mA"@, "μA"@, "nA"@, "kA"@, "MA"@]
    } else if kind == "substance"@ {
        seq!["mol"@, "mmol"@, "μmol"@, "nmol"@, "kmol"@]
    } else if kind == "luminous_intensity"@ {
        seq!["cd"@, "mcd"@, "kcd"@]
    } else if kind == "area"@ {
        seq!["m²"@, "km²"@, "cm²"@, "mm²"@, "ha"@, "acre"@, "ft²"@, "in²"@, "yd²"@, "mi²"@]
    } else {
        Seq::empty()
    }
}

/// Appends one unit name to the list being built.
fn push_name(names: &mut Vec<String>, name: &str)
    ensures
        final(names)@.len() == old(names)@.len() + 1,
        forall|i: int| 0 <= i < old(names)@.len() ==> final(names)@[i] == old(names)@[i],
        final(names)@[old(names)@.len() as int]@ == name@,
{
    names.push(name.to_owned());
}

/// The unit names offered for a family, matching `supported_units`; the
/// family name is matched case-insensitively and an unknown family yields
/// an empty list.
pub fn get_supported_units(conversion_type: &str) -> (r: Vec<String>)
    ensures
        r@.len() == supported_units(conversion_type@).len(),
        forall|i: int|
            0 <= i < r@.len() ==> #[trigger] r@[i]@ == supported_units(conversion_type@)[i],
{
    let mut names: Vec<String> = Vec::new();
    if crate::casefold::eq_fold(conversion_type, "length") {
        push_name(&mut names, "m");
        push_name(&mut names, "km");
        push_name(&mut names, "cm");
        push_name(&mut names, "mm");
        push_name(&mut names, "ft");
        push_name(&mut names, "in");
        push_name(&mut names, "yd");
        push_name(&mut names, "mi");
        push_name(&mut names, "nm");
        push_name(&mut names, "μm");
    } else if crate::casefold::eq_fold(conversion_type, "weight") || crate::casefold::eq_fold(
        conversion_type,
        "mass",
    ) {
        push_name(&mut names, "kg");
        push_name(&mut names, "g");
        push_name(&mut names, "mg");
        push_name(&mut names, "lb");
        push_name(&mut names, "oz");
        push_name(&mut names, "t");
        push_name(&mut names, "st");
        push_name(&mut names, "grain");
        push_name(&mut names, "carat");
    } else if crate::casefold::eq_fold(conversion_type, "temperature") {
        push_name(&mut names, "C");
        push_name(&mut names, "F");
        push_name(&mut names, "K");
    } else if crate::casefold::eq_fold(conversion_type, "volume") {
        push_name(&mut names, "l");
        push_name(&mut names, "ml");
        push_name(&mut names, "gal");
        push_name(&mut names, "gal_uk");
        push_name(&mut names, "fl_oz");
        push_name(&mut names, "fl_oz_uk");
        push_name(&mut names, "cup");
        push_name(&mut names, "pt");
        push_name(&mut names, "qt");
        push_name(&mut names, "tbsp");
        push_name(&mut names, "tsp");
    } else if crate::casefold::eq_fold(conversion_type, "time") {
        push_name(&mut names, "s");
        push_name(&mut names, "min");
        push_name(&mut names, "h");
        push_name(&mut names, "d");
        push_name(&mut names, "week");
        push_name(&mut names, "month");
        push_name(&mut names, "year");
        push_name(&mut names, "ms");
        push_name(&mut names, "μs");
        push_name(&mut names, "ns");
    } else if crate::casefold::eq_fold(conversion_type, "current") {
        push_name(&mut names, "A");
        push_name(&mut names, "mA");
        push_name(&mut names, "μA");
        push_name(&mut names, "nA");
        push_name(&mut names, "kA");
        push_name(&mut names, "MA");
    } else if crate::casefold::eq_fold(conversion_type, "substance") {
        push_name(&mut names, "mol");
        push_name(&mut names, "mmol");
        push_name(&mut names, "μmol");
        push_name(&mut names, "nmol");
        push_name(&mut names, "kmol");
    } else if crate::casefold::eq_fold(conversion_type, "luminous_intensity") {
        push_name(&mut names, "cd");
        push_name(&mut names, "mcd");
        push_name(&mut names, "kcd");
    } else if crate::casefold::eq_fold(conversion_type, "area") {
        push_name(&mut names, "m²");
        push_name(&mut names, "km²");
        push_name(&mut names, "cm²");
        push_name(&mut names, "mm²");
        push_name(&mut names, "ha");
        push_name(&mut names, "acre");
        push_name(&mut names, "ft²");
        push_name(&mut names, "in²");
        push_name(&mut names, "yd²");
        push_name(&mut names, "mi²");
    }
    names
}

} // verus!
