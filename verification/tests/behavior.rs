//! Behavioral tests: the conversion laws on concrete values, the error
//! contents and their ordering, case folding and synonyms, the catalog,
//! and the decimal-numeral parser.

use conversions_rs::conversions::length;
use conversions_rs::{
    convert_area, convert_current, convert_length, convert_temperature, convert_time,
    convert_weight, get_supported_units, ConversionError, Family, LengthUnit, Rat, UnitSide,
};

fn rat(n: i64, d: i64) -> Rat {
    Rat::new(n, d).unwrap()
}

fn val(r: &Rat) -> f64 {
    r.num() as f64 / r.den() as f64
}

#[test]
fn scenario_temperature_freezing_boiling_absolute_zero() {
    assert!(convert_temperature(&rat(0, 1), "C", "F").unwrap().eq_rat(&rat(32, 1)));
    assert!(convert_temperature(&rat(212, 1), "F", "C").unwrap().eq_rat(&rat(100, 1)));
    assert!(convert_temperature(&rat(0, 1), "K", "C").unwrap().eq_rat(&rat(-27315, 100)));
}

#[test]
fn scenario_kilometer_to_meter() {
    assert!(convert_length(&rat(1, 1), "km", "m").unwrap().eq_rat(&rat(1000, 1)));
}

#[test]
fn scenario_gram_to_kilogram() {
    assert!(convert_weight(&rat(1000, 1), "g", "kg").unwrap().eq_rat(&rat(1, 1)));
}

#[test]
fn scenario_area_hectare_and_acre() {
    assert!(convert_area(&rat(10_000, 1), "m²", "ha").unwrap().eq_rat(&rat(1, 1)));
    let acre = convert_area(&rat(1, 1), "ac", "m²").unwrap();
    assert!((val(&acre) - 4046.8564224).abs() < 0.001);
    // The acre factor is held exactly.
    assert!(acre.eq_rat(&Rat::from_decimal_str("4046.8564224").unwrap()));
}

#[test]
fn scenario_hour_of_seconds_to_minutes() {
    assert!(convert_time(&rat(3600, 1), "s", "min").unwrap().eq_rat(&rat(60, 1)));
}

#[test]
fn scenario_ampere_to_milliampere() {
    assert!(convert_current(&rat(1, 1), "A", "mA").unwrap().eq_rat(&rat(1000, 1)));
}

#[test]
fn scenario_invalid_length_unit_is_an_error_value() {
    assert!(convert_length(&rat(100, 1), "invalid", "m").is_err());
}

#[test]
fn identity_is_exact_not_routed() {
    // A same-unit conversion hands back the representation unchanged,
    // not a value routed through the base unit.
    let r = convert_length(&rat(1, 3), "ft", "ft").unwrap();
    assert_eq!(r.num(), 1);
    assert_eq!(r.den(), 3);
}

#[test]
fn round_trip_is_exact() {
    // Length: an awkward fraction through an imperial unit and back.
    let v = rat(7, 3);
    let there = convert_length(&v, "m", "ft").unwrap();
    let back = convert_length(&there, "ft", "m").unwrap();
    assert!(back.eq_rat(&v));

    // Temperature: through the affine rules and back.
    let t = rat(-40, 1);
    let f = convert_temperature(&t, "C", "F").unwrap();
    assert!(f.eq_rat(&rat(-40, 1)));
    let c = convert_temperature(&f, "F", "C").unwrap();
    assert!(c.eq_rat(&t));

    // Area: through the acre factor and back.
    let a = rat(12345, 100);
    let ac = convert_area(&a, "m²", "ac").unwrap();
    let back = convert_area(&ac, "ac", "m²").unwrap();
    assert!(back.eq_rat(&a));
}

#[test]
fn conversion_routes_through_the_base_unit() {
    // convert(v, A, B) equals from_base(B, to_base(A, v)).
    let v = rat(2, 1);
    let routed = length::from_base(
        &length::to_base(&v, LengthUnit::Kilometer).unwrap(),
        LengthUnit::Mile,
    )
    .unwrap();
    let direct = convert_length(&v, "km", "mi").unwrap();
    assert!(routed.eq_rat(&direct));
}

#[test]
fn case_and_synonyms_resolve_to_the_same_unit() {
    let a = convert_length(&rat(1, 1), "METER", "feet").unwrap();
    let b = convert_length(&rat(1, 1), "m", "ft").unwrap();
    assert_eq!(a.num(), b.num());
    assert_eq!(a.den(), b.den());

    let c = convert_temperature(&rat(25, 1), "CELSIUS", "fahrenheit").unwrap();
    assert!(c.eq_rat(&rat(77, 1)));

    // ASCII fallback spellings of the superscript and micro names.
    let d = convert_area(&rat(1, 1), "M2", "ha").unwrap();
    let e = convert_area(&rat(1, 1), "m²", "ha").unwrap();
    assert_eq!(d.num(), e.num());
    assert_eq!(d.den(), e.den());
    let f = convert_current(&rat(1, 1), "uA", "A").unwrap();
    let g = convert_current(&rat(1, 1), "μA", "A").unwrap();
    assert_eq!(f.num(), g.num());
    assert_eq!(f.den(), g.den());
}

#[test]
fn error_names_the_from_side_first() {
    match convert_length(&rat(1, 1), "bogus", "bogus2") {
        Err(ConversionError::UnsupportedUnit { family, side, unit }) => {
            assert!(matches!(family, Family::Length));
            assert!(matches!(side, UnitSide::From));
            assert_eq!(unit, "bogus");
        },
        _ => panic!("expected an unsupported-unit error"),
    }
}

#[test]
fn error_names_the_to_side_when_from_resolves() {
    match convert_weight(&rat(1, 1), "kg", "bogus") {
        Err(ConversionError::UnsupportedUnit { family, side, unit }) => {
            assert!(matches!(family, Family::Weight));
            assert!(matches!(side, UnitSide::To));
            assert_eq!(unit, "bogus");
        },
        _ => panic!("expected an unsupported-unit error"),
    }
}

#[test]
fn arithmetic_out_of_range_is_reported() {
    let huge = Rat::new(i64::MAX, 1).unwrap();
    match convert_area(&huge, "mi²", "yd²") {
        Err(ConversionError::OutOfRange { family }) => {
            assert!(matches!(family, Family::Area));
        },
        _ => panic!("expected an out-of-range error"),
    }
}

#[test]
fn rat_constructors_normalize_and_reject_zero_denominators() {
    assert!(Rat::new(1, 0).is_none());
    let neg = Rat::new(3, -4).unwrap();
    assert!(neg.eq_rat(&rat(-3, 4)));
    assert_eq!(Rat::from_int(17).num(), 17);
    assert_eq!(Rat::from_int(17).den(), 1);
}

#[test]
fn decimal_parsing_is_exact() {
    assert!(Rat::from_decimal_str("3.5").unwrap().eq_rat(&rat(7, 2)));
    assert!(Rat::from_decimal_str("-0.25").unwrap().eq_rat(&rat(-1, 4)));
    assert!(Rat::from_decimal_str("120").unwrap().eq_rat(&rat(120, 1)));
    assert!(Rat::from_decimal_str(".5").unwrap().eq_rat(&rat(1, 2)));
    assert!(Rat::from_decimal_str("5.").unwrap().eq_rat(&rat(5, 1)));
    assert!(Rat::from_decimal_str("1609.344").unwrap().eq_rat(&rat(1609344, 1000)));
}

#[test]
fn malformed_decimals_are_rejected() {
    assert!(Rat::from_decimal_str("").is_none());
    assert!(Rat::from_decimal_str("-").is_none());
    assert!(Rat::from_decimal_str(".").is_none());
    assert!(Rat::from_decimal_str("1.2.3").is_none());
    assert!(Rat::from_decimal_str("12a").is_none());
    assert!(Rat::from_decimal_str("1,5").is_none());
    // More digits than the integer range can hold.
    assert!(Rat::from_decimal_str("999999999999999999999999999999999999999999").is_none());
}

#[test]
fn supported_unit_catalog() {
    let lengths = get_supported_units("length");
    assert_eq!(lengths.len(), 10);
    assert_eq!(lengths[0], "m");
    assert_eq!(lengths[7], "mi");

    // The family name is matched case-insensitively, with a synonym.
    let temps = get_supported_units("TEMPERATURE");
    assert_eq!(temps, vec!["C".to_string(), "F".to_string(), "K".to_string()]);
    let mass = get_supported_units("mass");
    assert_eq!(mass[0], "kg");

    assert!(get_supported_units("bogus").is_empty());
}
