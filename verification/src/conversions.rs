//! Unit conversion tables, one module per quantity family.
//!
//! Each family enumerates its units, gives every unit a conversion rule
//! relative to the family's base unit, and exposes a string-keyed entry
//! point (`convert_<family>`) beside the typed one (`convert`).

pub mod area;
pub mod current;
pub mod length;
pub mod luminous_intensity;
pub mod substance;
pub mod temperature;
pub mod time;
pub mod volume;
pub mod weight;
