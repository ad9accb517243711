//! A unit-conversion library: a closed taxonomy of measurement units in five
//! dimensions (temperature, length, area, volume, mass), an exact conversion
//! engine over rational numbers, enumeration of the units of a dimension for
//! sweep conversions, and parsing of unit tokens and command lines.

pub mod engine;
pub mod names;
pub mod parse;
pub mod units;

pub use engine::CONVERT_LIMIT;
pub use engine::FROM_STANDARD_LIMIT;
pub use engine::Rat;
pub use engine::StandardRule;
pub use engine::TO_STANDARD_LIMIT;
pub use engine::convert;
pub use engine::convert_from_standard;
pub use engine::convert_to_standard;
pub use engine::power_of;
pub use engine::standard_rule;
pub use names::scale_to_string;
pub use names::unit_to_string;
pub use parse::Task;
pub use parse::parse_task;
pub use parse::parse_unit;
pub use units::AreaUnit;
pub use units::Dimension;
pub use units::LengthUnit;
pub use units::MassUnit;
pub use units::TempUnit;
pub use units::Unit;
pub use units::VolUnit;
pub use units::dimension;
pub use units::fetch_all_units;
pub use units::sweep_targets;
