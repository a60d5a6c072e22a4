//! The conversion test suite: string-keyed and typed conversions across
//! all nine families, same-unit identities, and unknown-unit errors.

use conversions_rs::conversions::length;
use conversions_rs::conversions::volume;
use conversions_rs::{
    convert_amount, convert_area, convert_current, convert_length, convert_luminous_intensity,
    convert_temperature, convert_time, convert_volume, convert_weight, LengthUnit, Rat, VolumeUnit,
};

fn rat(n: i64, d: i64) -> Rat {
    Rat::new(n, d).unwrap()
}

fn val(r: &Rat) -> f64 {
    r.num() as f64 / r.den() as f64
}

#[test]
fn test_length_conversions() {
    // Test meter to feet
    assert!((val(&convert_length(&rat(1, 1), "m", "ft").unwrap()) - 3.28084).abs() < 0.0001);

    // Test kilometer to meter
    assert!(convert_length(&rat(1, 1), "km", "m").unwrap().eq_rat(&rat(1000, 1)));

    // Test inch to centimeter
    assert!((val(&convert_length(&rat(1, 1), "in", "cm").unwrap()) - 2.54).abs() < 0.01);

    // Test mile to kilometer
    assert!((val(&convert_length(&rat(1, 1), "mi", "km").unwrap()) - 1.60934).abs() < 0.001);
}

#[test]
fn test_weight_conversions() {
    // Test kilogram to pound
    assert!((val(&convert_weight(&rat(1, 1), "kg", "lb").unwrap()) - 2.20462).abs() < 0.0001);

    // Test gram to kilogram
    assert!(convert_weight(&rat(1000, 1), "g", "kg").unwrap().eq_rat(&rat(1, 1)));

    // Test pound to ounces
    assert!((val(&convert_weight(&rat(1, 1), "lb", "oz").unwrap()) - 16.0).abs() < 0.01);
}

#[test]
fn test_temperature_conversions() {
    // Test Celsius to Fahrenheit
    assert!(convert_temperature(&rat(0, 1), "C", "F").unwrap().eq_rat(&rat(32, 1)));
    assert!(convert_temperature(&rat(100, 1), "C", "F").unwrap().eq_rat(&rat(212, 1)));

    // Test Fahrenheit to Celsius
    assert!(convert_temperature(&rat(32, 1), "F", "C").unwrap().eq_rat(&rat(0, 1)));
    assert!(convert_temperature(&rat(212, 1), "F", "C").unwrap().eq_rat(&rat(100, 1)));

    // Test Celsius to Kelvin
    assert!(convert_temperature(&rat(0, 1), "C", "K").unwrap().eq_rat(&rat(27315, 100)));

    // Test Kelvin to Celsius
    assert!(convert_temperature(&rat(27315, 100), "K", "C").unwrap().eq_rat(&rat(0, 1)));
}

#[test]
fn test_volume_conversions() {
    // Test liter to US gallon
    assert!((val(&convert_volume(&rat(1, 1), "l", "gal").unwrap()) - 0.264172).abs() < 0.0001);

    // Test US gallon to liter
    assert!((val(&convert_volume(&rat(1, 1), "gal", "l").unwrap()) - 3.78541).abs() < 0.0001);

    // Test cup to milliliter (US)
    assert!((val(&convert_volume(&rat(1, 1), "cup", "ml").unwrap()) - 236.588).abs() < 0.1);
}

#[test]
fn test_modular_length_api() {
    // Test conversions from meters
    let feet = length::convert(&rat(1, 1), LengthUnit::Meter, LengthUnit::Foot).unwrap();
    assert!((val(&feet) - 3.28084).abs() < 0.0001);
    let inches = length::convert(&rat(1, 1), LengthUnit::Meter, LengthUnit::Inch).unwrap();
    assert!((val(&inches) - 39.3701).abs() < 0.001);

    // Test conversions from feet; routing through meters leaves foot-inch
    // pairs exact only up to the published factors.
    let meters = length::convert(&rat(1, 1), LengthUnit::Foot, LengthUnit::Meter).unwrap();
    assert!((val(&meters) - 0.3048).abs() < 0.0001);
    let inches = length::convert(&rat(1, 1), LengthUnit::Foot, LengthUnit::Inch).unwrap();
    assert!((val(&inches) - 12.0).abs() < 0.001);

    // Test chaining conversions
    let m = length::convert(&rat(1, 1), LengthUnit::Kilometer, LengthUnit::Meter).unwrap();
    let km_to_feet = length::convert(&m, LengthUnit::Meter, LengthUnit::Foot).unwrap();
    assert!((val(&km_to_feet) - 3280.84).abs() < 0.1);
}

#[test]
fn test_modular_volume_api() {
    // Test conversions from liters
    let gal = volume::convert(&rat(1, 1), VolumeUnit::Liter, VolumeUnit::GallonUs).unwrap();
    assert!((val(&gal) - 0.264172).abs() < 0.0001);
    let ml = volume::convert(&rat(1, 1), VolumeUnit::Liter, VolumeUnit::Milliliter).unwrap();
    assert!(ml.eq_rat(&rat(1000, 1)));

    // Test conversions from US gallons; routing through liters leaves
    // gallon-ounce pairs exact only up to the published factors.
    let l = volume::convert(&rat(1, 1), VolumeUnit::GallonUs, VolumeUnit::Liter).unwrap();
    assert!((val(&l) - 3.78541).abs() < 0.0001);
    let floz = volume::convert(&rat(1, 1), VolumeUnit::GallonUs, VolumeUnit::FluidOunceUs)
        .unwrap();
    assert!((val(&floz) - 128.0).abs() < 0.001);
}

#[test]
fn test_time_conversions() {
    // Test seconds to minutes
    assert!(convert_time(&rat(60, 1), "s", "min").unwrap().eq_rat(&rat(1, 1)));

    // Test minutes to hours
    assert!(convert_time(&rat(120, 1), "min", "h").unwrap().eq_rat(&rat(2, 1)));

    // Test hours to days
    assert!(convert_time(&rat(48, 1), "h", "day").unwrap().eq_rat(&rat(2, 1)));

    // Test milliseconds to seconds
    assert!(convert_time(&rat(1000, 1), "ms", "s").unwrap().eq_rat(&rat(1, 1)));
}

#[test]
fn test_current_conversions() {
    // Test amperes to milliamperes
    assert!(convert_current(&rat(1, 1), "A", "mA").unwrap().eq_rat(&rat(1000, 1)));

    // Test milliamperes to amperes
    assert!(convert_current(&rat(500, 1), "mA", "A").unwrap().eq_rat(&rat(1, 2)));

    // Test amperes to microamperes
    assert!(convert_current(&rat(1, 1), "A", "μA").unwrap().eq_rat(&rat(1_000_000, 1)));

    // Test kiloamperes to amperes
    assert!(convert_current(&rat(1, 1), "kA", "A").unwrap().eq_rat(&rat(1000, 1)));
}

#[test]
fn test_amount_conversions() {
    // Test moles to millimoles
    assert!(convert_amount(&rat(1, 1), "mol", "mmol").unwrap().eq_rat(&rat(1000, 1)));

    // Test millimoles to moles
    assert!(convert_amount(&rat(500, 1), "mmol", "mol").unwrap().eq_rat(&rat(1, 2)));

    // Test moles to micromoles
    assert!(convert_amount(&rat(1, 1), "mol", "μmol").unwrap().eq_rat(&rat(1_000_000, 1)));

    // Test kilomoles to moles
    assert!(convert_amount(&rat(1, 1), "kmol", "mol").unwrap().eq_rat(&rat(1000, 1)));
}

#[test]
fn test_luminous_intensity_conversions() {
    // Test candela to millicandela
    assert!(convert_luminous_intensity(&rat(1, 1), "cd", "mcd").unwrap().eq_rat(&rat(1000, 1)));

    // Test millicandela to candela
    assert!(convert_luminous_intensity(&rat(500, 1), "mcd", "cd").unwrap().eq_rat(&rat(1, 2)));

    // Test candela to kilocandela
    assert!(convert_luminous_intensity(&rat(1000, 1), "cd", "kcd").unwrap().eq_rat(&rat(1, 1)));

    // Test decimal candle to candela (should be equal)
    assert!(convert_luminous_intensity(&rat(1, 1), "dc", "cd").unwrap().eq_rat(&rat(1, 1)));
}

#[test]
fn test_area_conversions() {
    // Test square meters to square centimeters
    assert!(convert_area(&rat(1, 1), "m²", "cm²").unwrap().eq_rat(&rat(10_000, 1)));

    // Test square kilometers to square meters
    assert!(convert_area(&rat(1, 1), "km²", "m²").unwrap().eq_rat(&rat(1_000_000, 1)));

    // Test square meters to hectares
    assert!(convert_area(&rat(10_000, 1), "m²", "ha").unwrap().eq_rat(&rat(1, 1)));

    // Test acres to square meters
    assert!((val(&convert_area(&rat(1, 1), "ac", "m²").unwrap()) - 4046.8564224).abs() < 0.001);

    // Test square feet to square inches (with floating-point tolerance)
    assert!((val(&convert_area(&rat(1, 1), "ft²", "in²").unwrap()) - 144.0).abs() < 0.001);
}

#[test]
fn test_same_unit_conversions() {
    // Test that converting to the same unit returns the original value
    assert!(convert_length(&rat(5, 1), "m", "m").unwrap().eq_rat(&rat(5, 1)));
    assert!(convert_weight(&rat(10, 1), "kg", "kg").unwrap().eq_rat(&rat(10, 1)));
    assert!(convert_temperature(&rat(25, 1), "C", "C").unwrap().eq_rat(&rat(25, 1)));
    assert!(convert_volume(&rat(3, 1), "l", "l").unwrap().eq_rat(&rat(3, 1)));
    assert!(convert_time(&rat(60, 1), "s", "s").unwrap().eq_rat(&rat(60, 1)));
    assert!(convert_current(&rat(3, 2), "A", "A").unwrap().eq_rat(&rat(3, 2)));
    assert!(convert_amount(&rat(1, 2), "mol", "mol").unwrap().eq_rat(&rat(1, 2)));
    assert!(convert_luminous_intensity(&rat(2, 1), "cd", "cd").unwrap().eq_rat(&rat(2, 1)));
    assert!(convert_area(&rat(100, 1), "m²", "m²").unwrap().eq_rat(&rat(100, 1)));
}

#[test]
fn test_invalid_units() {
    // Test error handling for invalid units
    assert!(convert_length(&rat(100, 1), "invalid", "m").is_err());
    assert!(convert_weight(&rat(50, 1), "kg", "invalid").is_err());
    assert!(convert_temperature(&rat(25, 1), "C", "invalid").is_err());
    assert!(convert_volume(&rat(10, 1), "invalid", "l").is_err());
    assert!(convert_time(&rat(60, 1), "invalid", "s").is_err());
    assert!(convert_current(&rat(1, 1), "A", "invalid").is_err());
    assert!(convert_amount(&rat(1, 2), "mol", "invalid").is_err());
    assert!(convert_luminous_intensity(&rat(1, 1), "cd", "invalid").is_err());
    assert!(convert_area(&rat(100, 1), "m²", "invalid").is_err());
}
