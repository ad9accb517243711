//! Human-readable unit names, for the display of conversion results: the
//! metric prefix of a scale exponent and the plural name of every unit.

use vstd::prelude::*;
use vstd::string::*;

use crate::units::AreaUnit;
use crate::units::LengthUnit;
use crate::units::MassUnit;
use crate::units::TempUnit;
use crate::units::Unit;
use crate::units::VolUnit;

verus! {

/// The metric prefix of a scale exponent: only milli, centi and kilo are
/// named; every other exponent gets the empty prefix.
pub open spec fn spec_prefix(scale: i8) -> Seq<char> {
    if scale == -3 {
        "milli"@
    } else if scale == -2 {
        "centi"@
    } else if scale == 3 {
        "kilo"@
    } else {
        ""@
    }
}

/// The display name of a unit: its plural name, with the metric prefix of
/// its scale exponent folded in for scaled units.
pub open spec fn spec_unit_name(u: Unit) -> Seq<char> {
    match u {
        Unit::Temperature(t) => match t {
            TempUnit::Kelvin => "kelvin"@,
            TempUnit::Celsius => "celsius"@,
            TempUnit::Fahrenheit => "fahrenheit"@,
        },
        Unit::Length(l) => match l {
            LengthUnit::Meter(s) => spec_prefix(s) + "meters"@,
            LengthUnit::Inch => "inches"@,
            LengthUnit::Feet => "feet"@,
            LengthUnit::Yard => "yards"@,
            LengthUnit::Mile => "miles"@,
        },
        Unit::Area(a) => match a {
            AreaUnit::Meter2(s) => "square "@ + spec_prefix(s) + "meter"@,
            AreaUnit::Inch2 => "square inches"@,
            AreaUnit::Feet2 => "square feet"@,
            AreaUnit::Yard2 => "square yards"@,
            AreaUnit::Mile2 => "square miles"@,
            AreaUnit::Acre => "acres"@,
            AreaUnit::Hectare => "hectares"@,
        },
        Unit::Volume(v) => match v {
            VolUnit::Liter(s) => spec_prefix(s) + "liters"@,
            VolUnit::Meter3(s) => "cubic "@ + spec_prefix(s) + "meters"@,
            VolUnit::TeaSpoon => "tea spoons"@,
            VolUnit::TableSpoon => "table spoons"@,
            VolUnit::Cup => "cups"@,
            VolUnit::Pint => "pints"@,
            VolUnit::Gallon => "gallons"@,
        },
        Unit::Mass(m) => match m {
            MassUnit::Gram(s) => spec_prefix(s) + "grams"@,
            MassUnit::Ounce => "ounce"@,
            MassUnit::Pound => "pounds"@,
            MassUnit::Stone => "stones"@,
        },
    }
}

/// Returns the metric prefix of a scale exponent.
pub fn scale_to_string(scale: i8) -> (r: String)
    ensures
        r@ == spec_prefix(scale),
{
    if scale == -3 {
        "milli".to_owned()
    } else if scale == -2 {
        "centi".to_owned()
    } else if scale == 3 {
        "kilo".to_owned()
    } else {
        "".to_owned()
    }
}

/// Returns the display name of a unit.
pub fn unit_to_string(unit: Unit) -> (r: String)
    ensures
        r@ == spec_unit_name(unit),
{
    match unit {
        Unit::Temperature(t) => match t {
            TempUnit::Kelvin => "kelvin".to_owned(),
            TempUnit::Celsius => "celsius".to_owned(),
            TempUnit::Fahrenheit => "fahrenheit".to_owned(),
        },
        Unit::Length(l) => match l {
            LengthUnit::Meter(i) => {
                let prefix = scale_to_string(i);
                prefix.concat("meters")
            }
            LengthUnit::Inch => "inches".to_owned(),
            LengthUnit::Feet => "feet".to_owned(),
            LengthUnit::Yard => "yards".to_owned(),
            LengthUnit::Mile => "miles".to_owned(),
        },
        Unit::Area(a) => match a {
            AreaUnit::Meter2(i) => {
                let prefix = scale_to_string(i);
                let head = String::from_str("square ");
                head.concat(prefix.as_str()).concat("meter")
            }
            AreaUnit::Inch2 => "square inches".to_owned(),
            AreaUnit::Feet2 => "square feet".to_owned(),
            AreaUnit::Yard2 => "square yards".to_owned(),
            AreaUnit::Mile2 => "square miles".to_owned(),
            AreaUnit::Acre => "acres".to_owned(),
            AreaUnit::Hectare => "hectares".to_owned(),
        },
        Unit::Volume(v) => match v {
            VolUnit::Liter(i) => {
                let prefix = scale_to_string(i);
                prefix.concat("liters")
            }
            VolUnit::Meter3(i) => {
                let prefix = scale_to_string(i);
                let head = String::from_str("cubic ");
                head.concat(prefix.as_str()).concat("meters")
            }
            VolUnit::TeaSpoon => "tea spoons".to_owned(),
            VolUnit::TableSpoon => "table spoons".to_owned(),
            VolUnit::Cup => "cups".to_owned(),
            VolUnit::Pint => "pints".to_owned(),
            VolUnit::Gallon => "gallons".to_owned(),
        },
        Unit::Mass(m) => match m {
            MassUnit::Gram(i) => {
                let prefix = scale_to_string(i);
                prefix.concat("grams")
            }
            MassUnit::Ounce => "ounce".to_owned(),
            MassUnit::Pound => "pounds".to_owned(),
            MassUnit::Stone => "stones".to_owned(),
        },
    }
}

} // verus!
