//! Parsing of user-typed unit tokens and of the command line.
//!
//! A token resolves to a unit through a fixed name table that covers common
//! abbreviations and full names; matching is ASCII-case-insensitive. The
//! command-line parser turns a token list into a `Task`; it leaves to the
//! caller only what a numeric token holds, taking in its place one flag that
//! says whether the first token reads as a number.

use vstd::prelude::*;
use vstd::string::*;

use crate::units::AreaUnit;
use crate::units::LengthUnit;
use crate::units::MassUnit;
use crate::units::TempUnit;
use crate::units::Unit;
use crate::units::VolUnit;

verus! {

/// An ASCII uppercase letter lowered; any other character unchanged.
pub open spec fn lower_char(c: char) -> char {
    if 65 <= c as u32 && c as u32 <= 90 {
        ((c as u32) + 32) as char
    } else {
        c
    }
}

/// A character sequence with every ASCII uppercase letter lowered.
pub open spec fn lower(s: Seq<char>) -> Seq<char> {
    Seq::new(s.len(), |i: int| lower_char(s[i]))
}

/// Returns a character with an ASCII uppercase letter lowered.
fn to_lower_char(c: char) -> (r: char)
    ensures
        r == lower_char(c),
{
    let u: u32 = c as u32;
    if 65 <= u && u <= 90 {
        let b: u8 = (u as u8) + 32;
        b as char
    } else {
        c
    }
}

/// Returns whether the token, lowered, equals the given name.
fn eq_lower(token: &str, name: &str) -> (b: bool)
    ensures
        b == (lower(token@) == name@),
{
    let n: usize = token.unicode_len();
    let m: usize = name.unicode_len();
    if n != m {
        proof {
            assert(lower(token@).len() == token@.len());
        }
        return false;
    }
    let mut i: usize = 0;
    while i < n
        invariant
            0 <= i <= n,
            n == token@.len(),
            n == name@.len(),
            forall|j: int| 0 <= j < i ==> lower(token@)[j] == name@[j],
        decreases n - i,
    {
        let c = token.get_char(i);
        let d = name.get_char(i);
        let cl = to_lower_char(c);
        if cl != d {
            proof {
                assert(lower(token@)[i as int] != name@[i as int]);
            }
            return false;
        }
        i += 1;
    }
    proof {
        assert(lower(token@) =~= name@);
    }
    true
}

/// Returns whether two strings hold the same characters.
fn str_eq(a: &str, b: &str) -> (r: bool)
    ensures
        r == (a@ == b@),
{
    let n: usize = a.unicode_len();
    let m: usize = b.unicode_len();
    if n != m {
        return false;
    }
    let mut i: usize = 0;
    while i < n
        invariant
            0 <= i <= n,
            n == a@.len(),
            n == b@.len(),
            forall|j: int| 0 <= j < i ==> a@[j] == b@[j],
        decreases n - i,
    {
        let c = a.get_char(i);
        let d = b.get_char(i);
        if c != d {
            return false;
        }
        i += 1;
    }
    proof {
        assert(a@ =~= b@);
    }
    true
}

/// The fixed name table: the unit a lowered token resolves to, or nothing.
pub open spec fn spec_parse_unit(s: Seq<char>) -> Option<Unit> {
    if s == "k"@ || s == "kelvin"@ {
        Some(Unit::Temperature(TempUnit::Kelvin))
    } else if s == "c"@ || s == "celsius"@ {
        Some(Unit::Temperature(TempUnit::Celsius))
    } else if s == "f"@ || s == "fahrenheit"@ {
        Some(Unit::Temperature(TempUnit::Fahrenheit))
    } else if s == "mm"@ {
        Some(Unit::Length(LengthUnit::Meter(-3i8)))
    } else if s == "cm"@ {
        Some(Unit::Length(LengthUnit::Meter(-2i8)))
    } else if s == "m"@ {
        Some(Unit::Length(LengthUnit::Meter(0i8)))
    } else if s == "km"@ {
        Some(Unit::Length(LengthUnit::Meter(3i8)))
    } else if s == "in"@ || s == "inch"@ || s == "inches"@ {
        Some(Unit::Length(LengthUnit::Inch))
    } else if s == "ft"@ || s == "feet"@ {
        Some(Unit::Length(LengthUnit::Feet))
    } else if s == "yd"@ || s == "yard"@ || s == "yards"@ {
        Some(Unit::Length(LengthUnit::Yard))
    } else if s == "mi"@ || s == "mile"@ || s == "miles"@ {
        Some(Unit::Length(LengthUnit::Mile))
    } else if s == "mm2"@ {
        Some(Unit::Area(AreaUnit::Meter2(-3i8)))
    } else if s == "cm2"@ {
        Some(Unit::Area(AreaUnit::Meter2(-2i8)))
    } else if s == "m2"@ {
        Some(Unit::Area(AreaUnit::Meter2(0i8)))
    } else if s == "km2"@ {
        Some(Unit::Area(AreaUnit::Meter2(3i8)))
    } else if s == "in2"@ {
        Some(Unit::Area(AreaUnit::Inch2))
    } else if s == "ft2"@ || s == "sqft"@ {
        Some(Unit::Area(AreaUnit::Feet2))
    } else if s == "yd2"@ {
        Some(Unit::Area(AreaUnit::Yard2))
    } else if s == "mi2"@ {
        Some(Unit::Area(AreaUnit::Mile2))
    } else if s == "ac"@ || s == "acre"@ || s == "acres"@ {
        Some(Unit::Area(AreaUnit::Acre))
    } else if s == "ha"@ || s == "hectare"@ || s == "hectares"@ {
        Some(Unit::Area(AreaUnit::Hectare))
    } else if s == "ml"@ {
        Some(Unit::Volume(VolUnit::Liter(-3i8)))
    } else if s == "l"@ || s == "liter"@ || s == "liters"@ {
        Some(Unit::Volume(VolUnit::Liter(0i8)))
    } else if s == "mm3"@ {
        Some(Unit::Volume(VolUnit::Meter3(-3i8)))
    } else if s == "cm3"@ {
        Some(Unit::Volume(VolUnit::Meter3(-2i8)))
    } else if s == "m3"@ {
        Some(Unit::Volume(VolUnit::Meter3(0i8)))
    } else if s == "teaspoon"@ || s == "teaspoons"@ {
        Some(Unit::Volume(VolUnit::TeaSpoon))
    } else if s == "tablespoon"@ || s == "tablespoons"@ {
        Some(Unit::Volume(VolUnit::TableSpoon))
    } else if s == "cup"@ || s == "cups"@ {
        Some(Unit::Volume(VolUnit::Cup))
    } else if s == "pt"@ || s == "pint"@ || s == "pints"@ {
        Some(Unit::Volume(VolUnit::Pint))
    } else if s == "gal"@ || s == "gallon"@ || s == "gallons"@ {
        Some(Unit::Volume(VolUnit::Gallon))
    } else if s == "mg"@ {
        Some(Unit::Mass(MassUnit::Gram(-3i8)))
    } else if s == "g"@ || s == "gram"@ || s == "grams"@ {
        Some(Unit::Mass(MassUnit::Gram(0i8)))
    } else if s == "kg"@ {
        Some(Unit::Mass(MassUnit::Gram(3i8)))
    } else if s == "oz"@ || s == "ounce"@ || s == "ounces"@ {
        Some(Unit::Mass(MassUnit::Ounce))
    } else if s == "lb"@ || s == "pound"@ || s == "pounds"@ {
        Some(Unit::Mass(MassUnit::Pound))
    } else if s == "st"@ || s == "stone"@ || s == "stones"@ {
        Some(Unit::Mass(MassUnit::Stone))
    } else {
        None
    }
}

/// Resolves a user-typed token to a unit through the fixed name table,
/// ASCII-case-insensitively; an unrecognized token resolves to nothing.
pub fn parse_unit(token: &str) -> (r: Option<Unit>)
    ensures
        r == spec_parse_unit(lower(token@)),
{
    if eq_lower(token, "k") || eq_lower(token, "kelvin") {
        Some(Unit::Temperature(TempUnit::Kelvin))
    } else if eq_lower(token, "c") || eq_lower(token, "celsius") {
        Some(Unit::Temperature(TempUnit::Celsius))
    } else if eq_lower(token, "f") || eq_lower(token, "fahrenheit") {
        Some(Unit::Temperature(TempUnit::Fahrenheit))
    } else if eq_lower(token, "mm") {
        Some(Unit::Length(LengthUnit::Meter(-3)))
    } else if eq_lower(token, "cm") {
        Some(Unit::Length(LengthUnit::Meter(-2)))
    } else if eq_lower(token, "m") {
        Some(Unit::Length(LengthUnit::Meter(0)))
    } else if eq_lower(token, "km") {
        Some(Unit::Length(LengthUnit::Meter(3)))
    } else if eq_lower(token, "in") || eq_lower(token, "inch") || eq_lower(token, "inches") {
        Some(Unit::Length(LengthUnit::Inch))
    } else if eq_lower(token, "ft") || eq_lower(token, "feet") {
        Some(Unit::Length(LengthUnit::Feet))
    } else if eq_lower(token, "yd") || eq_lower(token, "yard") || eq_lower(token, "yards") {
        Some(Unit::Length(LengthUnit::Yard))
    } else if eq_lower(token, "mi") || eq_lower(token, "mile") || eq_lower(token, "miles") {
        Some(Unit::Length(LengthUnit::Mile))
    } else if eq_lower(token, "mm2") {
        Some(Unit::Area(AreaUnit::Meter2(-3)))
    } else if eq_lower(token, "cm2") {
        Some(Unit::Area(AreaUnit::Meter2(-2)))
    } else if eq_lower(token, "m2") {
        Some(Unit::Area(AreaUnit::Meter2(0)))
    } else if eq_lower(token, "km2") {
        Some(Unit::Area(AreaUnit::Meter2(3)))
    } else if eq_lower(token, "in2") {
        Some(Unit::Area(AreaUnit::Inch2))
    } else if eq_lower(token, "ft2") || eq_lower(token, "sqft") {
        Some(Unit::Area(AreaUnit::Feet2))
    } else if eq_lower(token, "yd2") {
        Some(Unit::Area(AreaUnit::Yard2))
    } else if eq_lower(token, "mi2") {
        Some(Unit::Area(AreaUnit::Mile2))
    } else if eq_lower(token, "ac") || eq_lower(token, "acre") || eq_lower(token, "acres") {
        Some(Unit::Area(AreaUnit::Acre))
    } else if eq_lower(token, "ha") || eq_lower(token, "hectare") || eq_lower(token, "hectares") {
        Some(Unit::Area(AreaUnit::Hectare))
    } else if eq_lower(token, "ml") {
        Some(Unit::Volume(VolUnit::Liter(-3)))
    } else if eq_lower(token, "l") || eq_lower(token, "liter") || eq_lower(token, "liters") {
        Some(Unit::Volume(VolUnit::Liter(0)))
    } else if eq_lower(token, "mm3") {
        Some(Unit::Volume(VolUnit::Meter3(-3)))
    } else if eq_lower(token, "cm3") {
        Some(Unit::Volume(VolUnit::Meter3(-2)))
    } else if eq_lower(token, "m3") {
        Some(Unit::Volume(VolUnit::Meter3(0)))
    } else if eq_lower(token, "teaspoon") || eq_lower(token, "teaspoons") {
        Some(Unit::Volume(VolUnit::TeaSpoon))
    } else if eq_lower(token, "tablespoon") || eq_lower(token, "tablespoons") {
        Some(Unit::Volume(VolUnit::TableSpoon))
    } else if eq_lower(token, "cup") || eq_lower(token, "cups") {
        Some(Unit::Volume(VolUnit::Cup))
    } else if eq_lower(token, "pt") || eq_lower(token, "pint") || eq_lower(token, "pints") {
        Some(Unit::Volume(VolUnit::Pint))
    } else if eq_lower(token, "gal") || eq_lower(token, "gallon") || eq_lower(token, "gallons") {
        Some(Unit::Volume(VolUnit::Gallon))
    } else if eq_lower(token, "mg") {
        Some(Unit::Mass(MassUnit::Gram(-3)))
    } else if eq_lower(token, "g") || eq_lower(token, "gram") || eq_lower(token, "grams") {
        Some(Unit::Mass(MassUnit::Gram(0)))
    } else if eq_lower(token, "kg") {
        Some(Unit::Mass(MassUnit::Gram(3)))
    } else if eq_lower(token, "oz") || eq_lower(token, "ounce") || eq_lower(token, "ounces") {
        Some(Unit::Mass(MassUnit::Ounce))
    } else if eq_lower(token, "lb") || eq_lower(token, "pound") || eq_lower(token, "pounds") {
        Some(Unit::Mass(MassUnit::Pound))
    } else if eq_lower(token, "st") || eq_lower(token, "stone") || eq_lower(token, "stones") {
        Some(Unit::Mass(MassUnit::Stone))
    } else {
        None
    }
}

/// What a command line asks for. A task never carries a numeric value: where
/// one is called for, it is the first token of the command line, which the
/// caller reads; the `ConvertAll` and `ConvertTo` forms stand for converting
/// one of the unit.
#[derive(Debug, PartialEq)]
pub enum Task {
    /// Print the usage text.
    Help,
    /// Print the table of recognized unit tokens.
    DisplayUnits,
    /// A token did not resolve to a unit; it is carried for the report.
    UnknownUnit(String),
    /// In the two-token unit-to-unit form, a token failed to resolve.
    InvalidUnitPair,
    /// In the three-token form, the first token did not read as a number.
    NonNumericValue,
    /// More than three tokens.
    TooManyArguments,
    /// Convert one of the unit to every other unit of its dimension.
    ConvertAll(Unit),
    /// Convert the value held by the first token to every other unit.
    ConvertAllValue(Unit),
    /// Convert one of the first unit to the second.
    ConvertTo(Unit, Unit),
    /// Convert the value held by the first token from the first unit to the
    /// second.
    ConvertToValue(Unit, Unit),
}

/// What task a token list resolves to, given whether its first token reads
/// as a floating-point number.
pub open spec fn task_matches(r: Task, toks: Seq<String>, first_numeric: bool) -> bool {
    if toks.len() == 0 {
        r is Help
    } else if toks[0]@ == "-h"@ || toks[0]@ == "--help"@ {
        r is Help
    } else if toks[0]@ == "units"@ {
        r is DisplayUnits
    } else if toks.len() == 1 {
        match spec_parse_unit(lower(toks[0]@)) {
            Some(u) => r == Task::ConvertAll(u),
            None => r matches Task::UnknownUnit(t) && t@ == toks[0]@,
        }
    } else if toks.len() == 2 {
        if first_numeric {
            match spec_parse_unit(lower(toks[1]@)) {
                Some(u) => r == Task::ConvertAllValue(u),
                None => r matches Task::UnknownUnit(t) && t@ == toks[1]@,
            }
        } else {
            match (spec_parse_unit(lower(toks[0]@)), spec_parse_unit(lower(toks[1]@))) {
                (Some(a), Some(b)) => r == Task::ConvertTo(a, b),
                _ => r is InvalidUnitPair,
            }
        }
    } else if toks.len() == 3 {
        if first_numeric {
            match (spec_parse_unit(lower(toks[1]@)), spec_parse_unit(lower(toks[2]@))) {
                (Some(a), Some(b)) => r == Task::ConvertToValue(a, b),
                _ => r is InvalidUnitPair,
            }
        } else {
            r is NonNumericValue
        }
    } else {
        r is TooManyArguments
    }
}

/// Resolves a command line, already split into tokens, to a task. The caller
/// reports in `first_numeric` whether the first token reads as a
/// floating-point number; with no tokens the flag is ignored.
pub fn parse_task(tokens: &Vec<String>, first_numeric: bool) -> (r: Task)
    ensures
        task_matches(r, tokens@, first_numeric),
{
    if tokens.len() == 0 {
        return Task::Help;
    }
    let t0: &str = tokens[0].as_str();
    if str_eq(t0, "-h") || str_eq(t0, "--help") {
        return Task::Help;
    }
    if str_eq(t0, "units") {
        return Task::DisplayUnits;
    }
    if tokens.len() == 1 {
        match parse_unit(t0) {
            Some(u) => Task::ConvertAll(u),
            None => Task::UnknownUnit(tokens[0].clone()),
        }
    } else if tokens.len() == 2 {
        if first_numeric {
            match parse_unit(tokens[1].as_str()) {
                Some(u) => Task::ConvertAllValue(u),
                None => Task::UnknownUnit(tokens[1].clone()),
            }
        } else {
            let a = parse_unit(tokens[0].as_str());
            let b = parse_unit(tokens[1].as_str());
            match (a, b) {
                (Some(ua), Some(ub)) => Task::ConvertTo(ua, ub),
                _ => Task::InvalidUnitPair,
            }
        }
    } else if tokens.len() == 3 {
        if first_numeric {
            let a = parse_unit(tokens[1].as_str());
            let b = parse_unit(tokens[2].as_str());
            match (a, b) {
                (Some(ua), Some(ub)) => Task::ConvertToValue(ua, ub),
                _ => Task::InvalidUnitPair,
            }
        } else {
            Task::NonNumericValue
        }
    } else {
        Task::TooManyArguments
    }
}

} // verus!
