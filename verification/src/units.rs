//! The unit taxonomy: the closed set of unit variants of each dimension,
//! and the enumeration of a dimension's units for sweep conversions.
//!
//! A `Unit` belongs to exactly one `Dimension` by construction: the dimension
//! tag wraps a dimension-specific unit kind. Scaled units (`Meter`, `Meter2`,
//! `Meter3`, `Liter`, `Gram`) carry a power-of-ten scale exponent relative to
//! the dimension's metric base. Equality of units is structural.

use vstd::prelude::*;

verus! {

/// A physical quantity category. Conversions are only meaningful between two
/// units of the same dimension.
#[derive(Copy, Clone, PartialEq, Eq, Structural, Debug)]
pub enum Dimension {
    Temperature,
    Length,
    Area,
    Volume,
    Mass,
}

/// A temperature unit.
#[derive(Copy, Clone, PartialEq, Eq, Structural, Debug)]
pub enum TempUnit {
    Kelvin,
    Celsius,
    Fahrenheit,
}

/// A length unit. `Meter(s)` is a meter scaled by ten to the `s`.
#[derive(Copy, Clone, PartialEq, Eq, Structural, Debug)]
pub enum LengthUnit {
    Meter(i8),
    Inch,
    Feet,
    Yard,
    Mile,
}

/// An area unit. `Meter2(s)` is a square meter whose linear side is scaled by
/// ten to the `s`, so its area is scaled by ten to the `2 * s`.
#[derive(Copy, Clone, PartialEq, Eq, Structural, Debug)]
pub enum AreaUnit {
    Meter2(i8),
    Inch2,
    Feet2,
    Yard2,
    Mile2,
    Acre,
    Hectare,
}

/// A volume unit. `Liter(s)` is a liter scaled by ten to the `s`; `Meter3(s)`
/// is a cubic meter whose linear side is scaled by ten to the `s`.
#[derive(Copy, Clone, PartialEq, Eq, Structural, Debug)]
pub enum VolUnit {
    Liter(i8),
    Meter3(i8),
    TeaSpoon,
    TableSpoon,
    Cup,
    Pint,
    Gallon,
}

/// A mass unit. `Gram(s)` is a gram scaled by ten to the `s`.
#[derive(Copy, Clone, PartialEq, Eq, Structural, Debug)]
pub enum MassUnit {
    Gram(i8),
    Ounce,
    Pound,
    Stone,
}

/// A measurement unit of one of the five dimensions.
#[derive(Copy, Clone, PartialEq, Eq, Structural, Debug)]
pub enum Unit {
    Temperature(TempUnit),
    Length(LengthUnit),
    Area(AreaUnit),
    Volume(VolUnit),
    Mass(MassUnit),
}

/// The dimension a unit belongs to.
pub open spec fn dim_of(u: Unit) -> Dimension {
    match u {
        Unit::Temperature(_) => Dimension::Temperature,
        Unit::Length(_) => Dimension::Length,
        Unit::Area(_) => Dimension::Area,
        Unit::Volume(_) => Dimension::Volume,
        Unit::Mass(_) => Dimension::Mass,
    }
}

/// Returns the dimension a unit belongs to.
pub fn dimension(u: Unit) -> (d: Dimension)
    ensures
        d == dim_of(u),
{
    match u {
        Unit::Temperature(_) => Dimension::Temperature,
        Unit::Length(_) => Dimension::Length,
        Unit::Area(_) => Dimension::Area,
        Unit::Volume(_) => Dimension::Volume,
        Unit::Mass(_) => Dimension::Mass,
    }
}

/// The fixed, ordered list of interesting units of a dimension, used for
/// converting a value to every other unit of its dimension. For scaled units
/// only a curated set of scale exponents appears.
pub open spec fn spec_all_units(d: Dimension) -> Seq<Unit> {
    match d {
        Dimension::Temperature => seq![
            Unit::Temperature(TempUnit::Kelvin),
            Unit::Temperature(TempUnit::Celsius),
            Unit::Temperature(TempUnit::Fahrenheit),
        ],
        Dimension::Length => seq![
            Unit::Length(LengthUnit::Meter(-3i8)),
            Unit::Length(LengthUnit::Meter(-2i8)),
            Unit::Length(LengthUnit::Meter(0i8)),
            Unit::Length(LengthUnit::Meter(3i8)),
            Unit::Length(LengthUnit::Inch),
            Unit::Length(LengthUnit::Feet),
            Unit::Length(LengthUnit::Yard),
            Unit::Length(LengthUnit::Mile),
        ],
        Dimension::Area => seq![
            Unit::Area(AreaUnit::Meter2(-3i8)),
            Unit::Area(AreaUnit::Meter2(-2i8)),
            Unit::Area(AreaUnit::Meter2(0i8)),
            Unit::Area(AreaUnit::Meter2(3i8)),
            Unit::Area(AreaUnit::Inch2),
            Unit::Area(AreaUnit::Feet2),
            Unit::Area(AreaUnit::Yard2),
            Unit::Area(AreaUnit::Mile2),
        ],
        Dimension::Volume => seq![
            Unit::Volume(VolUnit::Liter(-3i8)),
            Unit::Volume(VolUnit::Liter(0i8)),
            Unit::Volume(VolUnit::Meter3(-3i8)),
            Unit::Volume(VolUnit::Meter3(-2i8)),
            Unit::Volume(VolUnit::Meter3(0i8)),
            Unit::Volume(VolUnit::Meter3(3i8)),
            Unit::Volume(VolUnit::TeaSpoon),
            Unit::Volume(VolUnit::TableSpoon),
            Unit::Volume(VolUnit::Cup),
            Unit::Volume(VolUnit::Pint),
            Unit::Volume(VolUnit::Gallon),
        ],
        Dimension::Mass => seq![
            Unit::Mass(MassUnit::Gram(-3i8)),
            Unit::Mass(MassUnit::Gram(-2i8)),
            Unit::Mass(MassUnit::Gram(0i8)),
            Unit::Mass(MassUnit::Gram(3i8)),
            Unit::Mass(MassUnit::Ounce),
            Unit::Mass(MassUnit::Pound),
            Unit::Mass(MassUnit::Stone),
        ],
    }
}

/// Returns the fixed, ordered list of interesting units of the dimension the
/// given unit belongs to.
pub fn fetch_all_units(unit: Unit) -> (r: Vec<Unit>)
    ensures
        r@ == spec_all_units(dim_of(unit)),
{
    let mut v: Vec<Unit> = Vec::new();
    match unit {
        Unit::Temperature(_) => {
            v.push(Unit::Temperature(TempUnit::Kelvin));
            v.push(Unit::Temperature(TempUnit::Celsius));
            v.push(Unit::Temperature(TempUnit::Fahrenheit));
        }
        Unit::Length(_) => {
            v.push(Unit::Length(LengthUnit::Meter(-3)));
            v.push(Unit::Length(LengthUnit::Meter(-2)));
            v.push(Unit::Length(LengthUnit::Meter(0)));
            v.push(Unit::Length(LengthUnit::Meter(3)));
            v.push(Unit::Length(LengthUnit::Inch));
            v.push(Unit::Length(LengthUnit::Feet));
            v.push(Unit::Length(LengthUnit::Yard));
            v.push(Unit::Length(LengthUnit::Mile));
        }
        Unit::Area(_) => {
            v.push(Unit::Area(AreaUnit::Meter2(-3)));
            v.push(Unit::Area(AreaUnit::Meter2(-2)));
            v.push(Unit::Area(AreaUnit::Meter2(0)));
            v.push(Unit::Area(AreaUnit::Meter2(3)));
            v.push(Unit::Area(AreaUnit::Inch2));
            v.push(Unit::Area(AreaUnit::Feet2));
            v.push(Unit::Area(AreaUnit::Yard2));
            v.push(Unit::Area(AreaUnit::Mile2));
        }
        Unit::Volume(_) => {
            v.push(Unit::Volume(VolUnit::Liter(-3)));
            v.push(Unit::Volume(VolUnit::Liter(0)));
            v.push(Unit::Volume(VolUnit::Meter3(-3)));
            v.push(Unit::Volume(VolUnit::Meter3(-2)));
            v.push(Unit::Volume(VolUnit::Meter3(0)));
            v.push(Unit::Volume(VolUnit::Meter3(3)));
            v.push(Unit::Volume(VolUnit::TeaSpoon));
            v.push(Unit::Volume(VolUnit::TableSpoon));
            v.push(Unit::Volume(VolUnit::Cup));
            v.push(Unit::Volume(VolUnit::Pint));
            v.push(Unit::Volume(VolUnit::Gallon));
        }
        Unit::Mass(_) => {
            v.push(Unit::Mass(MassUnit::Gram(-3)));
            v.push(Unit::Mass(MassUnit::Gram(-2)));
            v.push(Unit::Mass(MassUnit::Gram(0)));
            v.push(Unit::Mass(MassUnit::Gram(3)));
            v.push(Unit::Mass(MassUnit::Ounce));
            v.push(Unit::Mass(MassUnit::Pound));
            v.push(Unit::Mass(MassUnit::Stone));
        }
    }
    proof {
        assert(v@ =~= spec_all_units(dim_of(unit)));
    }
    v
}

/// The sequence `s` with every element structurally equal to `u` removed,
/// order otherwise kept.
pub open spec fn remove_unit(s: Seq<Unit>, u: Unit) -> Seq<Unit>
    decreases s.len(),
{
    if s.len() == 0 {
        Seq::empty()
    } else if s.last() == u {
        remove_unit(s.drop_last(), u)
    } else {
        remove_unit(s.drop_last(), u).push(s.last())
    }
}

/// The sweep list of a unit: every interesting unit of its dimension except
/// the unit itself, in enumeration order.
pub open spec fn spec_sweep_targets(u: Unit) -> Seq<Unit> {
    remove_unit(spec_all_units(dim_of(u)), u)
}

/// Returns the targets of a sweep conversion from the given unit: the
/// enumeration of its dimension with the unit itself filtered out. The result
/// never contains a unit structurally equal to the input.
pub fn sweep_targets(u: Unit) -> (r: Vec<Unit>)
    ensures
        r@ == spec_sweep_targets(u),
        forall|i: int| 0 <= i < r@.len() ==> r@[i] != u,
{
    let all = fetch_all_units(u);
    let mut v: Vec<Unit> = Vec::new();
    let mut i: usize = 0;
    while i < all.len()
        invariant
            i <= all.len(),
            all@ == spec_all_units(dim_of(u)),
            v@ == remove_unit(all@.take(i as int), u),
            forall|j: int| 0 <= j < v@.len() ==> v@[j] != u,
        decreases all.len() - i,
    {
        let x = all[i];
        proof {
            assert(all@.take(i + 1).drop_last() =~= all@.take(i as int));
            assert(all@.take(i + 1).last() == all@[i as int]);
        }
        if x != u {
            v.push(x);
        }
        i += 1;
    }
    proof {
        assert(all@.take(all@.len() as int) =~= all@);
    }
    v
}

} // verus!
