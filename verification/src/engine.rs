//! The conversion engine.
//!
//! Every unit is carried to its dimension's standard unit (kelvin, meter,
//! square meter, liter, gram) by an affine rule: a value `v` in the unit
//! equals `(v + offset) * factor` standard units, where `offset` and `factor`
//! are exact rational constants. Conversion between two units of one
//! dimension is the composition of a rule with the inverse of another.
//!
//! The engine computes with exact rational numbers: a value is a fraction of
//! two 128-bit integers. The specification-level semantics (`to_std_frac`,
//! `from_std_frac`, `convert_frac`) is over unbounded integers; the
//! executable functions compute the very same fractions, with preconditions
//! that bound magnitudes only as far as 128-bit arithmetic forces.

use vstd::prelude::*;

use crate::units::AreaUnit;
use crate::units::Dimension;
use crate::units::LengthUnit;
use crate::units::MassUnit;
use crate::units::TempUnit;
use crate::units::Unit;
use crate::units::VolUnit;
use crate::units::dim_of;

verus! {

/// Ten to the power `e`.
pub open spec fn pow10(e: nat) -> int
    decreases e,
{
    if e == 0 {
        1
    } else {
        10 * pow10((e - 1) as nat)
    }
}

proof fn lemma_pow10_pos(e: nat)
    ensures
        pow10(e) >= 1,
    decreases e,
{
    if e > 0 {
        lemma_pow10_pos((e - 1) as nat);
    }
}

proof fn lemma_pow10_mono(a: nat, b: nat)
    requires
        a <= b,
    ensures
        pow10(a) <= pow10(b),
    decreases b,
{
    if a < b {
        lemma_pow10_mono(a, (b - 1) as nat);
        lemma_pow10_pos((b - 1) as nat);
    }
}

proof fn lemma_pow10_12()
    ensures
        pow10(12) == 1_000_000_000_000,
{
    reveal_with_fuel(pow10, 13);
}

proof fn lemma_pow10_38()
    ensures
        pow10(38) == 100_000_000_000_000_000_000_000_000_000_000_000_000,
{
    reveal_with_fuel(pow10, 39);
}

/// Ten to the power `e`, as a fraction of unbounded integers.
pub open spec fn pow10_frac(e: int) -> (int, int) {
    if e >= 0 {
        (pow10(e as nat), 1)
    } else {
        (1, pow10((-e) as nat))
    }
}

/// The affine rule carrying a value in a unit to the standard unit of its
/// dimension: `v` of the unit equals
/// `(v + offset_num / offset_den) * (factor_num / factor_den) * 10^exp10`
/// standard units.
#[derive(Copy, Clone, PartialEq, Eq, Structural, Debug)]
pub struct StandardRule {
    pub offset_num: i64,
    pub offset_den: i64,
    pub factor_num: i64,
    pub factor_den: i64,
    pub exp10: i32,
}

/// The rule of each unit. Offsets appear only in temperature; the power of
/// ten carries the scale exponent of scaled units (squared for areas, cubed
/// for cubic meters, which also gain three for the cubic-meter-to-liter
/// step).
pub open spec fn spec_rule(u: Unit) -> StandardRule {
    match u {
        Unit::Temperature(t) => match t {
            TempUnit::Kelvin => StandardRule {
                offset_num: 0,
                offset_den: 1,
                factor_num: 1,
                factor_den: 1,
                exp10: 0,
            },
            TempUnit::Celsius => StandardRule {
                offset_num: 27315,
                offset_den: 100,
                factor_num: 1,
                factor_den: 1,
                exp10: 0,
            },
            TempUnit::Fahrenheit => StandardRule {
                offset_num: 45967,
                offset_den: 100,
                factor_num: 5,
                factor_den: 9,
                exp10: 0,
            },
        },
        Unit::Length(l) => match l {
            LengthUnit::Meter(s) => StandardRule {
                offset_num: 0,
                offset_den: 1,
                factor_num: 1,
                factor_den: 1,
                exp10: s as i32,
            },
            LengthUnit::Inch => StandardRule {
                offset_num: 0,
                offset_den: 1,
                factor_num: 254,
                factor_den: 10_000,
                exp10: 0,
            },
            LengthUnit::Feet => StandardRule {
                offset_num: 0,
                offset_den: 1,
                factor_num: 3_048,
                factor_den: 10_000,
                exp10: 0,
            },
            LengthUnit::Yard => StandardRule {
                offset_num: 0,
                offset_den: 1,
                factor_num: 9_144,
                factor_den: 10_000,
                exp10: 0,
            },
            LengthUnit::Mile => StandardRule {
                offset_num: 0,
                offset_den: 1,
                factor_num: 1_609_344,
                factor_den: 1_000,
                exp10: 0,
            },
        },
        Unit::Area(a) => match a {
            AreaUnit::Meter2(s) => StandardRule {
                offset_num: 0,
                offset_den: 1,
                factor_num: 1,
                factor_den: 1,
                exp10: (2 * (s as int)) as i32,
            },
            AreaUnit::Inch2 => StandardRule {
                offset_num: 0,
                offset_den: 1,
                factor_num: 64_516,
                factor_den: 100_000_000,
                exp10: 0,
            },
            AreaUnit::Feet2 => StandardRule {
                offset_num: 0,
                offset_den: 1,
                factor_num: 9_290_304,
                factor_den: 100_000_000,
                exp10: 0,
            },
            AreaUnit::Yard2 => StandardRule {
                offset_num: 0,
                offset_den: 1,
                factor_num: 83_612_736,
                factor_den: 100_000_000,
                exp10: 0,
            },
            AreaUnit::Mile2 => StandardRule {
                offset_num: 0,
                offset_den: 1,
                factor_num: 2_589_988_110_336,
                factor_den: 1_000_000,
                exp10: 0,
            },
            AreaUnit::Acre => StandardRule {
                offset_num: 0,
                offset_den: 1,
                factor_num: 40_468_564_224,
                factor_den: 10_000_000,
                exp10: 0,
            },
            AreaUnit::Hectare => StandardRule {
                offset_num: 0,
                offset_den: 1,
                factor_num: 10_000,
                factor_den: 1,
                exp10: 0,
            },
        },
        Unit::Volume(v) => match v {
            VolUnit::Liter(s) => StandardRule {
                offset_num: 0,
                offset_den: 1,
                factor_num: 1,
                factor_den: 1,
                exp10: s as i32,
            },
            VolUnit::Meter3(s) => StandardRule {
                offset_num: 0,
                offset_den: 1,
                factor_num: 1,
                factor_den: 1,
                exp10: (3 * (s as int) + 3) as i32,
            },
            VolUnit::TeaSpoon => StandardRule {
                offset_num: 0,
                offset_den: 1,
                factor_num: 5,
                factor_den: 1_000,
                exp10: 0,
            },
            VolUnit::TableSpoon => StandardRule {
                offset_num: 0,
                offset_den: 1,
                factor_num: 15,
                factor_den: 1_000,
                exp10: 0,
            },
            VolUnit::Cup => StandardRule {
                offset_num: 0,
                offset_den: 1,
                factor_num: 2_365_882_365,
                factor_den: 10_000_000_000,
                exp10: 0,
            },
            VolUnit::Pint => StandardRule {
                offset_num: 0,
                offset_den: 1,
                factor_num: 473_176_473,
                factor_den: 1_000_000_000,
                exp10: 0,
            },
            VolUnit::Gallon => StandardRule {
                offset_num: 0,
                offset_den: 1,
                factor_num: 3_785_411_784,
                factor_den: 1_000_000_000,
                exp10: 0,
            },
        },
        Unit::Mass(m) => match m {
            MassUnit::Gram(s) => StandardRule {
                offset_num: 0,
                offset_den: 1,
                factor_num: 1,
                factor_den: 1,
                exp10: s as i32,
            },
            MassUnit::Ounce => StandardRule {
                offset_num: 0,
                offset_den: 1,
                factor_num: 2_834_952,
                factor_den: 100_000,
                exp10: 0,
            },
            MassUnit::Pound => StandardRule {
                offset_num: 0,
                offset_den: 1,
                factor_num: 45_359_237,
                factor_den: 100_000,
                exp10: 0,
            },
            MassUnit::Stone => StandardRule {
                offset_num: 0,
                offset_den: 1,
                factor_num: 635_029_318,
                factor_den: 100_000,
                exp10: 0,
            },
        },
    }
}

/// The offset numerator of a unit's rule.
pub open spec fn offset_num(u: Unit) -> int {
    spec_rule(u).offset_num as int
}

/// The offset denominator of a unit's rule.
pub open spec fn offset_den(u: Unit) -> int {
    spec_rule(u).offset_den as int
}

/// The scale exponent of a unit's rule.
pub open spec fn factor_exp(u: Unit) -> int {
    spec_rule(u).exp10 as int
}

/// The full factor numerator of a unit's rule, the power of ten folded in.
pub open spec fn factor_num(u: Unit) -> int {
    spec_rule(u).factor_num * pow10_frac(factor_exp(u)).0
}

/// The full factor denominator of a unit's rule, the power of ten folded in.
pub open spec fn factor_den(u: Unit) -> int {
    spec_rule(u).factor_den * pow10_frac(factor_exp(u)).1
}

/// The scale exponents whose powers of ten the 128-bit engine accepts.
/// Unbounded exponents would overflow any fixed-width integer; the
/// specification functions and the proofs cover every exponent.
pub open spec fn scale_ok(u: Unit) -> bool {
    -12 <= factor_exp(u) <= 12
}

/// A value `v = n/d` in unit `u`, expressed in the standard unit of the
/// dimension of `u`: `(v + offset) * factor`.
pub open spec fn to_std_frac(u: Unit, v: (int, int)) -> (int, int) {
    (
        (v.0 * offset_den(u) + offset_num(u) * v.1) * factor_num(u),
        (v.1 * offset_den(u)) * factor_den(u),
    )
}

/// A value `w = n/d` in the standard unit of the dimension of `u`, expressed
/// in unit `u`: `w / factor - offset`, the exact algebraic inverse of
/// `to_std_frac`.
pub open spec fn from_std_frac(u: Unit, w: (int, int)) -> (int, int) {
    (
        w.0 * (factor_den(u) * offset_den(u)) - (offset_num(u) * factor_num(u)) * w.1,
        w.1 * (factor_num(u) * offset_den(u)),
    )
}

/// A value in unit `a`, expressed in unit `b`: through the standard unit.
pub open spec fn convert_frac(a: Unit, b: Unit, v: (int, int)) -> (int, int) {
    from_std_frac(b, to_std_frac(a, v))
}

/// Equality of two fractions, by cross multiplication.
pub open spec fn frac_eq(x: (int, int), y: (int, int)) -> bool {
    x.0 * y.1 == y.0 * x.1
}

proof fn lemma_abs_mul(x: int, xb: int, y: int, yb: int)
    requires
        -xb <= x <= xb,
        -yb <= y <= yb,
    ensures
        -(xb * yb) <= x * y <= xb * yb,
{
    assert(-(xb * yb) <= x * y <= xb * yb) by (nonlinear_arith)
        requires
            -xb <= x <= xb,
            -yb <= y <= yb,
    ;
}

proof fn lemma_mul_pos(x: int, y: int)
    requires
        x > 0,
        y > 0,
    ensures
        x * y > 0,
{
    assert(x * y > 0) by (nonlinear_arith)
        requires
            x > 0,
            y > 0,
    ;
}

/// Bounds on the rule coefficients, used to keep the 128-bit arithmetic of
/// the engine in range. Offsets occur only in temperature, whose factors are
/// small; outside temperature the offset is zero and its denominator one.
proof fn lemma_coef_bounds(u: Unit)
    requires
        scale_ok(u),
    ensures
        1 <= offset_den(u) <= 100,
        0 <= offset_num(u) <= 45_967,
        1 <= factor_num(u) <= 10_000_000_000_000,
        1 <= factor_den(u) <= 1_000_000_000_000,
        dim_of(u) != Dimension::Temperature ==> offset_num(u) == 0 && offset_den(u) == 1,
        dim_of(u) == Dimension::Temperature ==> factor_num(u) <= 5 && factor_den(u) <= 9,
{
    let e: int = factor_exp(u);
    lemma_pow10_12();
    if e >= 0 {
        lemma_pow10_mono(e as nat, 12);
        lemma_pow10_pos(e as nat);
    } else {
        lemma_pow10_mono((-e) as nat, 12);
        lemma_pow10_pos((-e) as nat);
    }
}

/// An exact rational number: the fraction `num / den`. Well-formed when the
/// denominator is positive; the sign lives in the numerator. Fractions are
/// not kept reduced.
#[derive(Copy, Clone, PartialEq, Eq, Structural, Debug)]
pub struct Rat {
    pub num: i128,
    pub den: i128,
}

impl View for Rat {
    type V = (int, int);

    open spec fn view(&self) -> (int, int) {
        (self.num as int, self.den as int)
    }
}

impl Rat {
    /// A well-formed rational has a positive denominator.
    pub open spec fn wf(self) -> bool {
        self.den > 0
    }

    /// The fraction `num / den`.
    pub fn new(num: i128, den: i128) -> (r: Rat)
        requires
            den > 0,
        ensures
            r.num == num,
            r.den == den,
            r.wf(),
    {
        Rat { num, den }
    }

    /// The whole number `n`.
    pub fn from_int(n: i64) -> (r: Rat)
        ensures
            r.num == n as int,
            r.den == 1,
            r.wf(),
    {
        Rat { num: n as i128, den: 1 }
    }
}

/// Ten to the power `e`, by iterative multiplication.
fn pow10_i128(e: u32) -> (r: i128)
    requires
        e <= 38,
    ensures
        r == pow10(e as nat),
        r >= 1,
{
    let mut k: u32 = 0;
    let mut r: i128 = 1;
    while k < e
        invariant
            k <= e,
            e <= 38,
            r == pow10(k as nat),
        decreases e - k,
    {
        proof {
            lemma_pow10_38();
            lemma_pow10_mono((k + 1) as nat, 38);
            lemma_pow10_pos(k as nat);
            assert(pow10((k + 1) as nat) == 10 * pow10(k as nat));
        }
        r = r * 10;
        k = k + 1;
    }
    proof {
        lemma_pow10_pos(k as nat);
    }
    r
}

/// Ten to the power `i`, as an exact rational, by iterative multiplication:
/// a positive exponent grows the numerator, a negative one the denominator.
pub fn power_of(i: i8) -> (r: Rat)
    requires
        -38 <= i <= 38,
    ensures
        r.wf(),
        r@ == pow10_frac(i as int),
{
    if i >= 0 {
        let num: i128 = pow10_i128(i as u32);
        Rat { num, den: 1 }
    } else {
        let den: i128 = pow10_i128((-(i as i32)) as u32);
        Rat { num: 1, den }
    }
}

/// Returns the affine rule of a unit, as exact integer coefficients.
pub fn standard_rule(u: Unit) -> (r: StandardRule)
    ensures
        r == spec_rule(u),
{
    match u {
        Unit::Temperature(t) => match t {
            TempUnit::Kelvin => StandardRule {
                offset_num: 0,
                offset_den: 1,
                factor_num: 1,
                factor_den: 1,
                exp10: 0,
            },
            TempUnit::Celsius => StandardRule {
                offset_num: 27315,
                offset_den: 100,
                factor_num: 1,
                factor_den: 1,
                exp10: 0,
            },
            TempUnit::Fahrenheit => StandardRule {
                offset_num: 45967,
                offset_den: 100,
                factor_num: 5,
                factor_den: 9,
                exp10: 0,
            },
        },
        Unit::Length(l) => match l {
            LengthUnit::Meter(s) => StandardRule {
                offset_num: 0,
                offset_den: 1,
                factor_num: 1,
                factor_den: 1,
                exp10: s as i32,
            },
            LengthUnit::Inch => StandardRule {
                offset_num: 0,
                offset_den: 1,
                factor_num: 254,
                factor_den: 10_000,
                exp10: 0,
            },
            LengthUnit::Feet => StandardRule {
                offset_num: 0,
                offset_den: 1,
                factor_num: 3_048,
                factor_den: 10_000,
                exp10: 0,
            },
            LengthUnit::Yard => StandardRule {
                offset_num: 0,
                offset_den: 1,
                factor_num: 9_144,
                factor_den: 10_000,
                exp10: 0,
            },
            LengthUnit::Mile => StandardRule {
                offset_num: 0,
                offset_den: 1,
                factor_num: 1_609_344,
                factor_den: 1_000,
                exp10: 0,
            },
        },
        Unit::Area(a) => match a {
            AreaUnit::Meter2(s) => StandardRule {
                offset_num: 0,
                offset_den: 1,
                factor_num: 1,
                factor_den: 1,
                exp10: 2 * (s as i32),
            },
            AreaUnit::Inch2 => StandardRule {
                offset_num: 0,
                offset_den: 1,
                factor_num: 64_516,
                factor_den: 100_000_000,
                exp10: 0,
            },
            AreaUnit::Feet2 => StandardRule {
                offset_num: 0,
                offset_den: 1,
                factor_num: 9_290_304,
                factor_den: 100_000_000,
                exp10: 0,
            },
            AreaUnit::Yard2 => StandardRule {
                offset_num: 0,
                offset_den: 1,
                factor_num: 83_612_736,
                factor_den: 100_000_000,
                exp10: 0,
            },
            AreaUnit::Mile2 => StandardRule {
                offset_num: 0,
                offset_den: 1,
                factor_num: 2_589_988_110_336,
                factor_den: 1_000_000,
                exp10: 0,
            },
            AreaUnit::Acre => StandardRule {
                offset_num: 0,
                offset_den: 1,
                factor_num: 40_468_564_224,
                factor_den: 10_000_000,
                exp10: 0,
            },
            AreaUnit::Hectare => StandardRule {
                offset_num: 0,
                offset_den: 1,
                factor_num: 10_000,
                factor_den: 1,
                exp10: 0,
            },
        },
        Unit::Volume(v) => match v {
            VolUnit::Liter(s) => StandardRule {
                offset_num: 0,
                offset_den: 1,
                factor_num: 1,
                factor_den: 1,
                exp10: s as i32,
            },
            VolUnit::Meter3(s) => StandardRule {
                offset_num: 0,
                offset_den: 1,
                factor_num: 1,
                factor_den: 1,
                exp10: 3 * (s as i32) + 3,
            },
            VolUnit::TeaSpoon => StandardRule {
                offset_num: 0,
                offset_den: 1,
                factor_num: 5,
                factor_den: 1_000,
                exp10: 0,
            },
            VolUnit::TableSpoon => StandardRule {
                offset_num: 0,
                offset_den: 1,
                factor_num: 15,
                factor_den: 1_000,
                exp10: 0,
            },
            VolUnit::Cup => StandardRule {
                offset_num: 0,
                offset_den: 1,
                factor_num: 2_365_882_365,
                factor_den: 10_000_000_000,
                exp10: 0,
            },
            VolUnit::Pint => StandardRule {
                offset_num: 0,
                offset_den: 1,
                factor_num: 473_176_473,
                factor_den: 1_000_000_000,
                exp10: 0,
            },
            VolUnit::Gallon => StandardRule {
                offset_num: 0,
                offset_den: 1,
                factor_num: 3_785_411_784,
                factor_den: 1_000_000_000,
                exp10: 0,
            },
        },
        Unit::Mass(m) => match m {
            MassUnit::Gram(s) => StandardRule {
                offset_num: 0,
                offset_den: 1,
                factor_num: 1,
                factor_den: 1,
                exp10: s as i32,
            },
            MassUnit::Ounce => StandardRule {
                offset_num: 0,
                offset_den: 1,
                factor_num: 2_834_952,
                factor_den: 100_000,
                exp10: 0,
            },
            MassUnit::Pound => StandardRule {
                offset_num: 0,
                offset_den: 1,
                factor_num: 45_359_237,
                factor_den: 100_000,
                exp10: 0,
            },
            MassUnit::Stone => StandardRule {
                offset_num: 0,
                offset_den: 1,
                factor_num: 635_029_318,
                factor_den: 100_000,
                exp10: 0,
            },
        },
    }
}

/// The full factor of a unit's rule, the power of ten folded into the
/// mantissa.
fn full_factor(u: Unit) -> (r: (i128, i128))
    requires
        scale_ok(u),
    ensures
        r.0 == factor_num(u),
        r.1 == factor_den(u),
        r.0 >= 1,
        r.1 >= 1,
{
    proof {
        lemma_coef_bounds(u);
    }
    let rule = standard_rule(u);
    if rule.exp10 >= 0 {
        let p: i128 = pow10_i128(rule.exp10 as u32);
        proof {
            lemma_pow10_12();
            lemma_pow10_mono(rule.exp10 as nat, 12);
            lemma_abs_mul(rule.factor_num as int, 2_589_988_110_336, p as int, 1_000_000_000_000);
        }
        ((rule.factor_num as i128) * p, rule.factor_den as i128)
    } else {
        let p: i128 = pow10_i128((-rule.exp10) as u32);
        proof {
            lemma_pow10_12();
            lemma_pow10_mono((-rule.exp10) as nat, 12);
            lemma_abs_mul(rule.factor_den as int, 10_000_000_000, p as int, 1_000_000_000_000);
        }
        (rule.factor_num as i128, (rule.factor_den as i128) * p)
    }
}

/// The widest numerator magnitude and denominator that `convert_to_standard`
/// accepts; forced by 128-bit intermediate products.
pub const TO_STANDARD_LIMIT: i128 = 1_000_000_000_000_000_000;

/// The widest numerator magnitude and denominator that
/// `convert_from_standard` accepts; forced by 128-bit intermediate products.
pub const FROM_STANDARD_LIMIT: i128 = 10_000_000_000_000_000_000_000_000;

/// The widest numerator magnitude and denominator that `convert` accepts;
/// forced by 128-bit intermediate products of the composed rules.
pub const CONVERT_LIMIT: i128 = 1_000_000_000_000;

/// Maps a value in the given unit to the standard unit of its dimension.
pub fn convert_to_standard(value: Rat, unit: Unit) -> (r: Rat)
    requires
        value.wf(),
        scale_ok(unit),
        -TO_STANDARD_LIMIT <= value.num <= TO_STANDARD_LIMIT,
        value.den <= TO_STANDARD_LIMIT,
    ensures
        r.wf(),
        r@ == to_std_frac(unit, value@),
{
    let rule = standard_rule(unit);
    let (fnum, fden): (i128, i128) = full_factor(unit);
    let od: i128 = rule.offset_den as i128;
    let on: i128 = rule.offset_num as i128;
    proof {
        lemma_coef_bounds(unit);
        lemma_abs_mul(value.num as int, TO_STANDARD_LIMIT as int, od as int, 100);
        lemma_abs_mul(on as int, 45_967, value.den as int, TO_STANDARD_LIMIT as int);
    }
    let a: i128 = value.num * od;
    let b: i128 = on * value.den;
    let c: i128 = a + b;
    proof {
        lemma_abs_mul(c as int, 46_067_000_000_000_000_000_000, fnum as int, 10_000_000_000_000);
        lemma_abs_mul(value.den as int, TO_STANDARD_LIMIT as int, od as int, 100);
    }
    let num: i128 = c * fnum;
    let d1: i128 = value.den * od;
    proof {
        lemma_abs_mul(d1 as int, 100_000_000_000_000_000_000, fden as int, 1_000_000_000_000);
        lemma_mul_pos(value.den as int, od as int);
        lemma_mul_pos(d1 as int, fden as int);
    }
    let den: i128 = d1 * fden;
    Rat { num, den }
}

/// Maps a value in the standard unit of the dimension of `unit` back into
/// `unit`: the exact algebraic inverse of `convert_to_standard`.
pub fn convert_from_standard(value: Rat, unit: Unit) -> (r: Rat)
    requires
        value.wf(),
        scale_ok(unit),
        -FROM_STANDARD_LIMIT <= value.num <= FROM_STANDARD_LIMIT,
        value.den <= FROM_STANDARD_LIMIT,
    ensures
        r.wf(),
        r@ == from_std_frac(unit, value@),
{
    let rule = standard_rule(unit);
    let (fnum, fden): (i128, i128) = full_factor(unit);
    let od: i128 = rule.offset_den as i128;
    let on: i128 = rule.offset_num as i128;
    proof {
        lemma_coef_bounds(unit);
        if dim_of(unit) == Dimension::Temperature {
            lemma_abs_mul(fden as int, 9, od as int, 100);
            lemma_abs_mul(on as int, 45_967, fnum as int, 5);
            lemma_abs_mul(fnum as int, 5, od as int, 100);
        } else {
            assert(fden as int * (od as int) == fden as int);
            assert(on as int * (fnum as int) == 0);
            assert(fnum as int * (od as int) == fnum as int);
        }
        assert(0 < (fden as int) * (od as int) <= 1_000_000_000_000);
        assert(0 <= (on as int) * (fnum as int) <= 4_596_700);
        assert(0 < (fnum as int) * (od as int) <= 10_000_000_000_000);
        lemma_mul_pos(fden as int, od as int);
        lemma_mul_pos(fnum as int, od as int);
    }
    let fdod: i128 = fden * od;
    let onfn: i128 = on * fnum;
    let fnod: i128 = fnum * od;
    proof {
        lemma_abs_mul(value.num as int, FROM_STANDARD_LIMIT as int, fdod as int, 1_000_000_000_000);
        lemma_abs_mul(onfn as int, 4_596_700, value.den as int, FROM_STANDARD_LIMIT as int);
        lemma_abs_mul(value.den as int, FROM_STANDARD_LIMIT as int, fnod as int, 10_000_000_000_000);
        lemma_mul_pos(value.den as int, fnod as int);
    }
    let x: i128 = value.num * fdod;
    let y: i128 = onfn * value.den;
    let num: i128 = x - y;
    let den: i128 = value.den * fnod;
    Rat { num, den }
}

/// Converts a value from unit `a` to unit `b` of the same dimension, through
/// the standard unit: `convert_from_standard(convert_to_standard(v, a), b)`.
///
/// Conversion between different dimensions has no meaning, so the contract
/// demands one dimension of both units; every caller must show it. No other
/// bound is placed on the value: negative, zero or extreme values pass
/// through the arithmetic, as far as 128-bit intermediates reach.
pub fn convert(value: Rat, a: Unit, b: Unit) -> (r: Rat)
    requires
        value.wf(),
        dim_of(a) == dim_of(b),
        scale_ok(a),
        scale_ok(b),
        -CONVERT_LIMIT <= value.num <= CONVERT_LIMIT,
        value.den <= CONVERT_LIMIT,
    ensures
        r.wf(),
        r@ == convert_frac(a, b, value@),
{
    let t = convert_to_standard(value, a);
    proof {
        lemma_coef_bounds(a);
        lemma_abs_mul(value.num as int, CONVERT_LIMIT as int, offset_den(a), 100);
        lemma_abs_mul(offset_num(a), 45_967, value.den as int, CONVERT_LIMIT as int);
        lemma_abs_mul(value.den as int, CONVERT_LIMIT as int, offset_den(a), 100);
        if dim_of(a) == Dimension::Temperature {
            lemma_abs_mul(
                value.num as int * offset_den(a) + offset_num(a) * (value.den as int),
                46_067_000_000_000_000,
                factor_num(a),
                5,
            );
            lemma_abs_mul(value.den as int * offset_den(a), 100_000_000_000_000, factor_den(a), 9);
        } else {
            lemma_abs_mul(value.num as int, CONVERT_LIMIT as int, offset_den(a), 1);
            lemma_abs_mul(offset_num(a), 0, value.den as int, CONVERT_LIMIT as int);
            lemma_abs_mul(value.den as int, CONVERT_LIMIT as int, offset_den(a), 1);
            lemma_abs_mul(
                value.num as int * offset_den(a) + offset_num(a) * (value.den as int),
                CONVERT_LIMIT as int,
                factor_num(a),
                10_000_000_000_000,
            );
            lemma_abs_mul(value.den as int * offset_den(a), CONVERT_LIMIT as int, factor_den(a), 1_000_000_000_000);
        }
        assert(-FROM_STANDARD_LIMIT <= t.num <= FROM_STANDARD_LIMIT);
        assert(t.den <= FROM_STANDARD_LIMIT);
    }
    convert_from_standard(t, b)
}

/// Round trip: mapping a value into the standard unit of its dimension and
/// back into the same unit returns the value itself, exactly, for every unit
/// (any scale exponent) and every rational value.
pub proof fn lemma_standard_round_trip(u: Unit, v: (int, int))
    requires
        v.1 > 0,
    ensures
        frac_eq(from_std_frac(u, to_std_frac(u, v)), v),
{
    let on: int = offset_num(u);
    let od: int = offset_den(u);
    let fnum: int = factor_num(u);
    let fden: int = factor_den(u);
    let t: (int, int) = to_std_frac(u, v);
    let r: (int, int) = from_std_frac(u, t);
    let k: int = (fnum * fden) * od;
    let s: int = v.0 * od + on * v.1;
    assert(t.0 * (fden * od) == k * s) by (nonlinear_arith)
        requires
            t.0 == s * fnum,
            k == (fnum * fden) * od,
    ;
    assert((on * fnum) * t.1 == k * (on * v.1)) by (nonlinear_arith)
        requires
            t.1 == (v.1 * od) * fden,
            k == (fnum * fden) * od,
    ;
    assert(k * s - k * (on * v.1) == k * (v.0 * od)) by (nonlinear_arith)
        requires
            s == v.0 * od + on * v.1,
    ;
    assert(r.0 == k * (v.0 * od));
    assert(r.1 == k * (v.1 * od)) by (nonlinear_arith)
        requires
            r.1 == ((v.1 * od) * fden) * (fnum * od),
            k == (fnum * fden) * od,
    ;
    assert((k * (v.0 * od)) * v.1 == v.0 * (k * (v.1 * od))) by (nonlinear_arith);
}

/// Identity: converting a value from a unit to the very same unit returns
/// the value itself, exactly, for every unit and every rational value.
pub proof fn lemma_convert_identity(u: Unit, v: (int, int))
    requires
        v.1 > 0,
    ensures
        frac_eq(convert_frac(u, u, v), v),
{
    lemma_standard_round_trip(u, v);
}

} // verus!

