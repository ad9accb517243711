use unit_converter::AreaUnit::Acre;
use unit_converter::AreaUnit::Meter2;
use unit_converter::CONVERT_LIMIT;
use unit_converter::LengthUnit::Meter;
use unit_converter::LengthUnit::Mile;
use unit_converter::MassUnit::Gram;
use unit_converter::MassUnit::Stone;
use unit_converter::Rat;
use unit_converter::TempUnit::Celsius;
use unit_converter::TempUnit::Fahrenheit;
use unit_converter::TempUnit::Kelvin;
use unit_converter::Unit;
use unit_converter::Unit::Area;
use unit_converter::Unit::Length;
use unit_converter::Unit::Mass;
use unit_converter::Unit::Temperature;
use unit_converter::Unit::Volume;
use unit_converter::VolUnit::Gallon;
use unit_converter::VolUnit::Liter;
use unit_converter::VolUnit::Meter3;
use unit_converter::convert;
use unit_converter::convert_from_standard;
use unit_converter::convert_to_standard;
use unit_converter::fetch_all_units;
use unit_converter::power_of;
use unit_converter::standard_rule;
use unit_converter::sweep_targets;

/// Exact equality of two fractions, by cross multiplication.
fn rat_eq(a: Rat, b: Rat) -> bool {
    a.num * b.den == b.num * a.den
}

fn every_unit() -> Vec<Unit> {
    let mut all = Vec::new();
    all.extend(fetch_all_units(Temperature(Kelvin)));
    all.extend(fetch_all_units(Length(Meter(0))));
    all.extend(fetch_all_units(Area(Meter2(0))));
    all.extend(fetch_all_units(Volume(Liter(0))));
    all.extend(fetch_all_units(Mass(Gram(0))));
    all
}

#[test]
fn round_trip_is_exact_for_every_unit() {
    // To the standard unit and back: exactly the value, for every unit.
    let v = Rat::new(-723, 16);
    for u in every_unit() {
        let std = convert_to_standard(v, u);
        let back = convert_from_standard(std, u);
        assert!(rat_eq(back, v), "round trip drifted for {:?}", u);
    }
}

#[test]
fn convert_to_same_unit_is_identity() {
    let v = Rat::new(12345, 7);
    for u in every_unit() {
        let r = convert(v, u, u);
        assert!(rat_eq(r, v), "identity failed for {:?}", u);
    }
}

#[test]
fn temperature_fixed_points_are_exact() {
    // 0 °C is exactly 273.15 K.
    let r = convert(Rat::from_int(0), Temperature(Celsius), Temperature(Kelvin));
    assert!(rat_eq(r, Rat::new(27315, 100)));

    // 100 °C is exactly 212 °F.
    let r = convert(Rat::from_int(100), Temperature(Celsius), Temperature(Fahrenheit));
    assert!(rat_eq(r, Rat::from_int(212)));

    // 32 °F is exactly 0 °C.
    let r = convert(Rat::from_int(32), Temperature(Fahrenheit), Temperature(Celsius));
    assert!(rat_eq(r, Rat::from_int(0)));
}

#[test]
fn scale_composition_is_exact() {
    // 1 km is exactly 1000 m.
    let r = convert(Rat::from_int(1), Length(Meter(3)), Length(Meter(0)));
    assert!(rat_eq(r, Rat::from_int(1000)));

    // 1 m is exactly 100 cm.
    let r = convert(Rat::from_int(1), Length(Meter(0)), Length(Meter(-2)));
    assert!(rat_eq(r, Rat::from_int(100)));
}

#[test]
fn cross_check_constants_are_exact() {
    // 1 acre is exactly 4046.8564224 m².
    let r = convert(Rat::from_int(1), Area(Acre), Area(Meter2(0)));
    assert!(rat_eq(r, Rat::new(40_468_564_224, 10_000_000)));

    // 1 gallon is exactly 3.785411784 liters.
    let r = convert(Rat::from_int(1), Volume(Gallon), Volume(Liter(0)));
    assert!(rat_eq(r, Rat::new(3_785_411_784, 1_000_000_000)));

    // 1 stone is exactly 6350.29318 grams.
    let r = convert(Rat::from_int(1), Mass(Stone), Mass(Gram(0)));
    assert!(rat_eq(r, Rat::new(635_029_318, 100_000)));
}

#[test]
fn sweep_excludes_the_unit_itself() {
    for u in every_unit() {
        let targets = sweep_targets(u);
        assert!(!targets.contains(&u), "sweep of {:?} contains itself", u);
        // The sweep is the enumeration with only the unit itself removed.
        let all = fetch_all_units(u);
        assert_eq!(targets.len() + 1, all.len());
        let mut expected = Vec::new();
        for x in all {
            if x != u {
                expected.push(x);
            }
        }
        assert_eq!(targets, expected);
    }
}

#[test]
fn power_of_matches_powers_of_ten() {
    let p = power_of(0);
    assert_eq!((p.num, p.den), (1, 1));
    let p = power_of(3);
    assert_eq!((p.num, p.den), (1000, 1));
    let p = power_of(-3);
    assert_eq!((p.num, p.den), (1, 1000));
    let p = power_of(12);
    assert_eq!((p.num, p.den), (1_000_000_000_000, 1));
}

#[test]
fn standard_rules_hold_the_documented_constants() {
    let r = standard_rule(Temperature(Fahrenheit));
    assert_eq!(
        (r.offset_num, r.offset_den, r.factor_num, r.factor_den, r.exp10),
        (45967, 100, 5, 9, 0),
    );
    let r = standard_rule(Length(Mile));
    assert_eq!((r.factor_num, r.factor_den, r.exp10), (1_609_344, 1_000, 0));
    let r = standard_rule(Volume(Meter3(-2)));
    assert_eq!((r.factor_num, r.factor_den, r.exp10), (1, 1, -3));
    let r = standard_rule(Mass(Gram(3)));
    assert_eq!((r.factor_num, r.factor_den, r.exp10), (1, 1, 3));
}

#[test]
fn conversion_at_the_value_limit_is_exact() {
    // The widest value the 128-bit engine accepts still converts exactly.
    let v = Rat::new(CONVERT_LIMIT, CONVERT_LIMIT);
    let r = convert(v, Length(Meter(0)), Length(Meter(-3)));
    assert!(rat_eq(r, Rat::from_int(1000)));
}

#[test]
fn negative_values_pass_through_the_arithmetic() {
    // Negative kelvin is computed without complaint, like any other value.
    let r = convert(Rat::from_int(-500), Temperature(Kelvin), Temperature(Celsius));
    assert!(rat_eq(r, Rat::new(-77315, 100)));
}
