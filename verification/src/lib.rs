//! Exact unit conversion across nine physical-quantity families.
//!
//! Magnitudes are exact rational numbers ([`rational::Rat`]). Every family
//! (length, weight, temperature, volume, time, electric current, amount of
//! substance, luminous intensity, area) picks a base unit; each unit carries a
//! linear — or, for temperature, affine — rule relating it to that base, and a
//! conversion between two units routes through the base. A string-keyed
//! dispatch layer resolves case-insensitive unit names and synonyms to units
//! and reports an unrecognized name as an error value.
//!
//! Because the arithmetic is exact, the conversion laws hold exactly and are
//! proved in [`laws`] and [`dispatch`]: a same-unit conversion is the
//! identity, converting to another unit and back reproduces the input, and
//! every conversion agrees with its base-routed form.

pub mod casefold;
pub mod catalog;
pub mod conversions;
pub mod decimal;
pub mod dispatch;
pub mod laws;
pub mod rational;
pub mod rule;

pub use catalog::get_supported_units;
pub use conversions::area::convert_area;
pub use conversions::area::AreaUnit;
pub use conversions::current::convert_current;
pub use conversions::current::CurrentUnit;
pub use conversions::length::convert_length;
pub use conversions::length::LengthUnit;
pub use conversions::luminous_intensity::convert_luminous_intensity;
pub use conversions::luminous_intensity::LuminousIntensityUnit;
pub use conversions::substance::convert_amount;
pub use conversions::substance::SubstanceUnit;
pub use conversions::temperature::convert_temperature;
pub use conversions::temperature::TemperatureUnit;
pub use conversions::time::convert_time;
pub use conversions::time::TimeUnit;
pub use conversions::volume::convert_volume;
pub use conversions::volume::VolumeUnit;
pub use conversions::weight::convert_weight;
pub use conversions::weight::WeightUnit;
pub use dispatch::ConversionError;
pub use dispatch::Family;
pub use dispatch::UnitSide;
pub use rational::Rat;
