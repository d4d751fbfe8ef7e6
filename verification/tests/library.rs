//! Tests for the measurement-conversion library: the distance scenarios,
//! the temperature and angle tables, the tolerance-based comparisons, and
//! the calendrical module.

use ast_utils::angular::{Degree, Radian};
use ast_utils::distance::{Kilometer, Millimeter};
use ast_utils::ratio::Ratio;
use ast_utils::temperature::{Celsius, Fahrenheit, Kelvin};
use ast_utils::time::{is_leap_year, DateTime};
use ast_utils::units::{AngleUnit, DistanceUnit, TemperatureUnit};

const DISTANCE_TOLERANCE: f64 = 0.1e-5;

fn ratio_f64(r: &Ratio) -> f64 {
    (r.numer() as f64) / (r.denom() as f64)
}

fn is_close(expected_val: f64, real_val: f64) -> bool {
    (expected_val - real_val).abs() <= DISTANCE_TOLERANCE
}

fn assert_close(expected_val: f64, real_val: f64) {
    assert!(
        is_close(expected_val, real_val),
        "value {} differs from {} more than {}",
        real_val,
        expected_val,
        DISTANCE_TOLERANCE
    )
}

#[test]
fn it_works() {
    assert_eq!(2 + 2, 4);
}

#[test]
fn test_0millimeters_to_centimeters() {
    let res = Millimeter::new(Ratio::new(0, 1)).convert_scalar(&DistanceUnit::Centimeter);

    assert!(res.is_ok());
    assert!(is_close(0.0, ratio_f64(&res.unwrap())));
}

#[test]
fn test_millimeters_to_millimeter() {
    let res = Millimeter::new(Ratio::new(1, 1)).convert_scalar(&DistanceUnit::Millimeter);

    assert!(res.is_ok());
    assert!(is_close(1.0, ratio_f64(&res.unwrap())));
}

#[test]
fn test_millimeters_to_centimeter() {
    let res = Millimeter::new(Ratio::new(10, 1)).convert_scalar(&DistanceUnit::Centimeter);

    assert!(res.is_ok());
    assert!(is_close(1.0, ratio_f64(&res.unwrap())));
}

#[test]
fn test_millimeters_to_meter() {
    let res = Millimeter::new(Ratio::new(1000, 1)).convert_scalar(&DistanceUnit::Meter);

    assert!(res.is_ok());
    assert!(is_close(1.0, ratio_f64(&res.unwrap())));
}

#[test]
fn test_millimeters_to_kilometer() {
    let res = Millimeter::new(Ratio::new(1_000_000, 1)).convert_scalar(&DistanceUnit::Kilometer);

    assert!(res.is_ok());
    assert!(is_close(1.0, ratio_f64(&res.unwrap())));
}

#[test]
fn test_kilometers_to_millimeter() {
    let res = Kilometer::new(Ratio::new(1, 1_000_000)).convert_scalar(&DistanceUnit::Millimeter);

    assert!(res.is_ok());
    assert!(is_close(1.0, ratio_f64(&res.unwrap())));
}

#[test]
fn test_kilometers_to_centimeter() {
    let res = Kilometer::new(Ratio::new(1, 100_000)).convert_scalar(&DistanceUnit::Centimeter);

    assert!(res.is_ok());
    assert!(is_close(1.0, ratio_f64(&res.unwrap())));
}

#[test]
fn test_kilometers_to_meter() {
    let res = Kilometer::new(Ratio::new(1, 1000)).convert_scalar(&DistanceUnit::Meter);

    assert!(res.is_ok());
    assert!(is_close(1.0, ratio_f64(&res.unwrap())));
}

#[test]
fn test_kilometers_to_kilometer() {
    let res = Kilometer::new(Ratio::new(1, 1)).convert_scalar(&DistanceUnit::Kilometer);

    assert!(res.is_ok());
    assert!(is_close(1.0, ratio_f64(&res.unwrap())));
}

#[test]
fn test_kilometers_miles() {
    let res = Kilometer::new(Ratio::new(1_609_344, 1_000_000)).convert_scalar(&DistanceUnit::Mile);

    assert!(res.is_ok());
    assert!(is_close(1.0, ratio_f64(&res.unwrap())));
}

#[test]
fn test_kilometers_astronomical_unit() {
    let res =
        Kilometer::new(Ratio::new(1_000_000_000, 1)).convert_scalar(&DistanceUnit::AstronomicalUnit);

    assert!(res.is_ok());
    assert!(is_close(6.685, ratio_f64(&res.unwrap())));
}

#[test]
fn test_millimeter_unsupported_mile() {
    let res = Millimeter::new(Ratio::new(7, 1)).convert_scalar(&DistanceUnit::Mile);

    assert!(res.is_err());
    assert_eq!(res.unwrap_err(), "Millimeter misses some distances");
}

#[test]
fn test_millimeter_unsupported_astronomical_unit() {
    let res = Millimeter::new(Ratio::new(0, 1)).convert_scalar(&DistanceUnit::AstronomicalUnit);

    assert!(res.is_err());
}

#[test]
fn test_kilometer_zero_short_circuit() {
    let km = Kilometer::new(Ratio::new(0, 1));
    let to_mile = km.convert_scalar(&DistanceUnit::Mile).unwrap();
    let to_au = km.convert_scalar(&DistanceUnit::AstronomicalUnit).unwrap();

    assert_eq!(to_mile.numer(), 0);
    assert_eq!(to_au.numer(), 0);
}

#[test]
fn test_distance_round_trip() {
    let mm = Millimeter::new(Ratio::new(5, 1));
    let as_km = mm.convert_scalar(&DistanceUnit::Kilometer).unwrap();
    let back = Kilometer::new(as_km).convert_scalar(&DistanceUnit::Millimeter).unwrap();

    assert_close(5.0, ratio_f64(&back));
}

#[test]
fn test_distance_scalar_and_unit() {
    let mm = Millimeter::new(Ratio::new(42, 10));
    let km = Kilometer::new(Ratio::new(3, 1));

    assert_close(4.2, ratio_f64(&mm.scalar()));
    assert_eq!(mm.unit(), DistanceUnit::Millimeter);
    assert_close(3.0, ratio_f64(&km.scalar()));
    assert_eq!(km.unit(), DistanceUnit::Kilometer);
}

#[test]
fn test_celsius_to_fahrenheit() {
    let res = Celsius::new(Ratio::new(100, 1)).convert_scalar(&TemperatureUnit::Fahrenheit);

    assert_close(212.0, ratio_f64(&res.unwrap()));
}

#[test]
fn test_fahrenheit_to_celsius() {
    let res = Fahrenheit::new(Ratio::new(32, 1)).convert_scalar(&TemperatureUnit::Celsius);

    assert_close(0.0, ratio_f64(&res.unwrap()));
}

#[test]
fn test_celsius_to_kelvin() {
    let res = Celsius::new(Ratio::new(0, 1)).convert_scalar(&TemperatureUnit::Kelvin);

    assert_close(273.15, ratio_f64(&res.unwrap()));
}

#[test]
fn test_kelvin_to_fahrenheit() {
    let res = Kelvin::new(Ratio::new(0, 1)).convert_scalar(&TemperatureUnit::Fahrenheit);

    assert_close(-459.67, ratio_f64(&res.unwrap()));
}

#[test]
fn test_fahrenheit_to_kelvin() {
    let res = Fahrenheit::new(Ratio::new(212, 1)).convert_scalar(&TemperatureUnit::Kelvin);

    assert_close(373.15, ratio_f64(&res.unwrap()));
}

#[test]
fn test_temperature_identity() {
    let res = Kelvin::new(Ratio::new(5463, 20)).convert_scalar(&TemperatureUnit::Kelvin);

    assert_close(273.15, ratio_f64(&res.unwrap()));
    assert_eq!(Celsius::new(Ratio::new(1, 3)).unit(), TemperatureUnit::Celsius);
}

#[test]
fn test_temperature_round_trip() {
    let c = Celsius::new(Ratio::new(25, 1));
    let as_f = c.convert_scalar(&TemperatureUnit::Fahrenheit).unwrap();
    let back = Fahrenheit::new(as_f).convert_scalar(&TemperatureUnit::Celsius).unwrap();

    assert_close(25.0, ratio_f64(&back));
    assert_eq!(back.numer(), 25);
    assert_eq!(back.denom(), 1);
}

#[test]
fn test_degree_to_radian() {
    let res = Degree::new(Ratio::new(180, 1)).convert_scalar(&AngleUnit::Radian);

    assert_close(3.141592653589793, ratio_f64(&res.unwrap()));
}

#[test]
fn test_radian_to_degree() {
    let pi = Ratio::new(3_141_592_653_589_793, 1_000_000_000_000_000);
    let res = Radian::new(pi).convert_scalar(&AngleUnit::Degree);

    assert_close(180.0, ratio_f64(&res.unwrap()));
}

#[test]
fn test_angle_round_trip() {
    let d = Degree::new(Ratio::new(90, 1));
    let as_r = d.convert_scalar(&AngleUnit::Radian).unwrap();
    let back = Radian::new(as_r).convert_scalar(&AngleUnit::Degree).unwrap();

    assert_eq!(back.numer(), 90);
    assert_eq!(back.denom(), 1);
}

#[test]
fn test_angle_zero() {
    let res = Radian::new(Ratio::new(0, 1)).convert_scalar(&AngleUnit::Degree);

    assert_close(0.0, ratio_f64(&res.unwrap()));
}

#[test]
fn test_ratio_normalisation() {
    let a = Ratio::new(-10, -4);
    let b = Ratio::new(3, -6);

    assert_eq!(a.numer(), 5);
    assert_eq!(a.denom(), 2);
    assert_eq!(b.numer(), -1);
    assert_eq!(b.denom(), 2);
    assert!(a.is_bounded());
    assert!(!a.is_zero());
    assert!(Ratio::from_int(0).is_zero());
}

#[test]
fn test_leap_year() {
    assert_eq!(false, is_leap_year(1906));
    assert_eq!(true, is_leap_year(1908));
    assert_eq!(false, is_leap_year(1800));
    assert_eq!(true, is_leap_year(1600));
}

#[test]
fn test_to_julian_day() {
    let dt = DateTime::from_date(2010, 1, 1);

    assert_close(2_455_197.50, ratio_f64(&dt.to_julian_day()));
}

#[test]
fn test_to_julian_day_with_fractional_day() {
    let dt = DateTime::new(2015, 3, 21, 12, 0, 0, 0);

    assert_close(2_457_103.0, ratio_f64(&dt.to_julian_day()));
}

#[test]
fn test_to_julian_day_epoch() {
    let dt = DateTime::from_date(-4712, 1, 1);

    assert_close(-0.5, ratio_f64(&dt.to_julian_day()));
}

#[test]
fn test_to_julian_day_julian_calendar() {
    let dt = DateTime::from_date(1000, 1, 1);

    assert_close(2_086_307.5, ratio_f64(&dt.to_julian_day()));
}

#[test]
fn test_is_gregorian_cutover() {
    assert!(DateTime::from_date(1583, 10, 15).is_gregorian());
    assert!(!DateTime::from_date(1583, 10, 14).is_gregorian());
    assert!(!DateTime::from_date(1582, 12, 31).is_gregorian());
    assert!(DateTime::from_date(1584, 1, 1).is_gregorian());
}

#[test]
fn test_fractional_day() {
    let dt = DateTime::new(2000, 1, 10, 6, 0, 0, 0);

    assert_close(10.25, ratio_f64(&dt.fractional_day()));
}
