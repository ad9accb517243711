use unit_converter::AreaUnit::Acre;
use unit_converter::AreaUnit::Hectare;
use unit_converter::AreaUnit::Meter2;
use unit_converter::LengthUnit::Meter;
use unit_converter::LengthUnit::Mile;
use unit_converter::MassUnit::Gram;
use unit_converter::MassUnit::Pound;
use unit_converter::MassUnit::Stone;
use unit_converter::Rat;
use unit_converter::TempUnit::Celsius;
use unit_converter::TempUnit::Fahrenheit;
use unit_converter::TempUnit::Kelvin;
use unit_converter::Unit::Area;
use unit_converter::Unit::Length;
use unit_converter::Unit::Mass;
use unit_converter::Unit::Temperature;
use unit_converter::Unit::Volume;
use unit_converter::VolUnit::Cup;
use unit_converter::VolUnit::Gallon;
use unit_converter::VolUnit::Liter;
use unit_converter::VolUnit::Meter3;
use unit_converter::convert;

fn val(r: Rat) -> f64 {
    r.num as f64 / r.den as f64
}

#[test]
fn test_temperature() {
    // 0 °C = 273.15 K
    let c_to_k = val(convert(Rat::from_int(0), Temperature(Celsius), Temperature(Kelvin)));
    assert!((c_to_k - 273.15).abs() < 1e-3);

    // 100 °C = 212 °F
    let c_to_f = val(convert(Rat::from_int(100), Temperature(Celsius), Temperature(Fahrenheit)));
    assert!((c_to_f - 212.0).abs() < 1e-3);

    // 32 °F = 0 °C
    let f_to_c = val(convert(Rat::from_int(32), Temperature(Fahrenheit), Temperature(Celsius)));
    assert!((f_to_c - 0.0).abs() < 1e-3);
}

#[test]
fn test_conversion_length() {
    // 1 meter = 100 cm
    let cm = val(convert(Rat::from_int(1), Length(Meter(0)), Length(Meter(-2))));
    assert!((cm - 100.0).abs() < 1e-3);

    // 1 kilometer = 1000 meters
    let m = val(convert(Rat::from_int(1), Length(Meter(3)), Length(Meter(0))));
    assert!((m - 1000.0).abs() < 1e-3);

    // 1 mile ≈ 1609.344 meters
    let m = val(convert(Rat::from_int(1), Length(Mile), Length(Meter(0))));
    assert!((m - 1609.344).abs() < 1e-3);
}

#[test]
fn test_conversion_area() {
    // 1 m² = 10,000 cm²
    let cm2 = val(convert(Rat::from_int(1), Area(Meter2(0)), Area(Meter2(-2))));
    assert!((cm2 - 10_000.0).abs() < 1e-3);

    // 1 km² = 1,000,000 m²
    let m2 = val(convert(Rat::from_int(1), Area(Meter2(3)), Area(Meter2(0))));
    assert!((m2 - 1_000_000.0).abs() < 1e-3);

    // 1 acre ≈ 4046.8564224 m²
    let m2 = val(convert(Rat::from_int(1), Area(Acre), Area(Meter2(0))));
    assert!((m2 - 4046.8564224).abs() < 1e-3);

    // 1 hectare = 10,000 m²
    let m2 = val(convert(Rat::from_int(1), Area(Hectare), Area(Meter2(0))));
    assert!((m2 - 10_000.0).abs() < 1e-3);
}

#[test]
fn test_conversion_volume() {
    // 1 liter = 1000 ml
    let ml = val(convert(Rat::from_int(1), Volume(Liter(0)), Volume(Liter(-3))));
    assert!((ml - 1000.0).abs() < 1e-3);

    // 1 m³ = 1000 liters
    let l = val(convert(Rat::from_int(1), Volume(Meter3(0)), Volume(Liter(0))));
    assert!((l - 1000.0).abs() < 1e-3);

    // 1 cup ≈ 0.236588 liters
    let l = val(convert(Rat::from_int(1), Volume(Cup), Volume(Liter(0))));
    assert!((l - 0.2365882365).abs() < 1e-3);

    // 1 gallon ≈ 3.78541 liters
    let l = val(convert(Rat::from_int(1), Volume(Gallon), Volume(Liter(0))));
    assert!((l - 3.785411784).abs() < 1e-3);
}

#[test]
fn test_conversion_mass() {
    // 1 kg = 1000 g
    let g = val(convert(Rat::from_int(1), Mass(Gram(3)), Mass(Gram(0))));
    assert!((g - 1000.0).abs() < 1e-3);

    // 1 g = 1000 mg
    let mg = val(convert(Rat::from_int(1), Mass(Gram(0)), Mass(Gram(-3))));
    assert!((mg - 1000.0).abs() < 1e-3);

    // 1 pound ≈ 453.59237 g
    let g = val(convert(Rat::from_int(1), Mass(Pound), Mass(Gram(0))));
    assert!((g - 453.59237).abs() < 1e-3);

    // 1 stone = 14 pounds = 6350.29318 g
    let g = val(convert(Rat::from_int(1), Mass(Stone), Mass(Gram(0))));
    assert!((g - 6350.29318).abs() < 1e-3);
}
