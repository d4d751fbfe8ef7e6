//! Domain tags: closed sets of unit identifiers, one set per physical
//! domain.  Tags are immutable identifiers.

use vstd::prelude::*;

verus! {

/// Units of the distance domain.
#[derive(Clone, Copy, Debug, PartialEq, Eq, Structural)]
pub enum DistanceUnit {
    Millimeter,
    Centimeter,
    Meter,
    Kilometer,
    Mile,
    AstronomicalUnit,
}

/// Units of the temperature domain.
#[derive(Clone, Copy, Debug, PartialEq, Eq, Structural)]
pub enum TemperatureUnit {
    Celsius,
    Fahrenheit,
    Kelvin,
}

/// Units of the plane-angle domain.
#[derive(Clone, Copy, Debug, PartialEq, Eq, Structural)]
pub enum AngleUnit {
    Degree,
    Radian,
}

} // verus!
