//! Temperature converters.
//!
//! Temperature conversions are affine: Fahrenheit is Celsius scaled by
//! nine fifths plus thirty-two, Kelvin is Celsius plus 273.15, and the
//! Fahrenheit/Kelvin entries are their exact composition.  Every
//! temperature type supports every temperature target.

use vstd::prelude::*;

verus! {

use crate::ratio::{
    affine_apply,
    lemma_affine_identity,
    ratio_bounded,
    ratio_eq,
    ratio_wf,
    Ratio,
};
use crate::units::TemperatureUnit;

/// The conversion table of the temperature domain, keyed by source and
/// target unit: the entry `(mn, md, an, ad)` maps a scalar `v` to
/// `v * (mn / md) + an / ad`, exactly.
pub open spec fn temp_table(from: TemperatureUnit, to: TemperatureUnit) -> (int, int, int, int) {
    match (from, to) {
        (TemperatureUnit::Celsius, TemperatureUnit::Celsius) => (1, 1, 0, 1),
        (TemperatureUnit::Celsius, TemperatureUnit::Fahrenheit) => (9, 5, 32, 1),
        (TemperatureUnit::Celsius, TemperatureUnit::Kelvin) => (1, 1, 27315, 100),
        (TemperatureUnit::Fahrenheit, TemperatureUnit::Celsius) => (5, 9, -160, 9),
        (TemperatureUnit::Fahrenheit, TemperatureUnit::Fahrenheit) => (1, 1, 0, 1),
        (TemperatureUnit::Fahrenheit, TemperatureUnit::Kelvin) => (5, 9, 229835, 900),
        (TemperatureUnit::Kelvin, TemperatureUnit::Celsius) => (1, 1, -27315, 100),
        (TemperatureUnit::Kelvin, TemperatureUnit::Fahrenheit) => (9, 5, -45967, 100),
        (TemperatureUnit::Kelvin, TemperatureUnit::Kelvin) => (1, 1, 0, 1),
    }
}

/// A temperature in degrees Celsius.
#[derive(Clone, Copy, Debug)]
pub struct Celsius {
    value: Ratio,
}

impl View for Celsius {
    type V = (int, int);

    closed spec fn view(&self) -> (int, int) {
        self.value@
    }
}

impl Celsius {
    /// A Celsius temperature holding `value`.
    pub fn new(value: Ratio) -> (r: Celsius)
        ensures
            r@ == value@,
    {
        Celsius { value }
    }

    /// The stored scalar value.
    pub fn scalar(&self) -> (r: Ratio)
        ensures
            r@ == self@,
    {
        self.value
    }

    /// The type's own domain tag.
    pub fn unit(&self) -> (u: TemperatureUnit)
        ensures
            u == TemperatureUnit::Celsius,
    {
        TemperatureUnit::Celsius
    }

    /// The stored scalar expressed in `to_unit`, exactly.  The table is
    /// complete, so every target succeeds.
    pub fn convert_scalar(&self, to_unit: &TemperatureUnit) -> (r: Result<Ratio, &'static str>)
        requires
            ratio_bounded(self@),
        ensures
            match r {
                Ok(v) => ratio_wf(v@) && ratio_eq(
                    v@,
                    affine_apply(self@, temp_table(TemperatureUnit::Celsius, *to_unit)),
                ),
                Err(_) => false,
            },
    {
        match to_unit {
            TemperatureUnit::Celsius => Ok(self.value.affine(1, 1, 0, 1)),
            TemperatureUnit::Fahrenheit => Ok(self.value.affine(9, 5, 32, 1)),
            TemperatureUnit::Kelvin => Ok(self.value.affine(1, 1, 27315, 100)),
        }
    }
}

/// A temperature in degrees Fahrenheit.
#[derive(Clone, Copy, Debug)]
pub struct Fahrenheit {
    value: Ratio,
}

impl View for Fahrenheit {
    type V = (int, int);

    closed spec fn view(&self) -> (int, int) {
        self.value@
    }
}

impl Fahrenheit {
    /// A Fahrenheit temperature holding `value`.
    pub fn new(value: Ratio) -> (r: Fahrenheit)
        ensures
            r@ == value@,
    {
        Fahrenheit { value }
    }

    /// The stored scalar value.
    pub fn scalar(&self) -> (r: Ratio)
        ensures
            r@ == self@,
    {
        self.value
    }

    /// The type's own domain tag.
    pub fn unit(&self) -> (u: TemperatureUnit)
        ensures
            u == TemperatureUnit::Fahrenheit,
    {
        TemperatureUnit::Fahrenheit
    }

    /// The stored scalar expressed in `to_unit`, exactly.  The table is
    /// complete, so every target succeeds.
    pub fn convert_scalar(&self, to_unit: &TemperatureUnit) -> (r: Result<Ratio, &'static str>)
        requires
            ratio_bounded(self@),
        ensures
            match r {
                Ok(v) => ratio_wf(v@) && ratio_eq(
                    v@,
                    affine_apply(self@, temp_table(TemperatureUnit::Fahrenheit, *to_unit)),
                ),
                Err(_) => false,
            },
    {
        match to_unit {
            TemperatureUnit::Celsius => Ok(self.value.affine(5, 9, -160, 9)),
            TemperatureUnit::Fahrenheit => Ok(self.value.affine(1, 1, 0, 1)),
            TemperatureUnit::Kelvin => Ok(self.value.affine(5, 9, 229835, 900)),
        }
    }
}

/// A temperature in kelvins.
#[derive(Clone, Copy, Debug)]
pub struct Kelvin {
    value: Ratio,
}

impl View for Kelvin {
    type V = (int, int);

    closed spec fn view(&self) -> (int, int) {
        self.value@
    }
}

impl Kelvin {
    /// A Kelvin temperature holding `value`.
    pub fn new(value: Ratio) -> (r: Kelvin)
        ensures
            r@ == value@,
    {
        Kelvin { value }
    }

    /// The stored scalar value.
    pub fn scalar(&self) -> (r: Ratio)
        ensures
            r@ == self@,
    {
        self.value
    }

    /// The type's own domain tag.
    pub fn unit(&self) -> (u: TemperatureUnit)
        ensures
            u == TemperatureUnit::Kelvin,
    {
        TemperatureUnit::Kelvin
    }

    /// The stored scalar expressed in `to_unit`, exactly.  The table is
    /// complete, so every target succeeds.
    pub fn convert_scalar(&self, to_unit: &TemperatureUnit) -> (r: Result<Ratio, &'static str>)
        requires
            ratio_bounded(self@),
        ensures
            match r {
                Ok(v) => ratio_wf(v@) && ratio_eq(
                    v@,
                    affine_apply(self@, temp_table(TemperatureUnit::Kelvin, *to_unit)),
                ),
                Err(_) => false,
            },
    {
        match to_unit {
            TemperatureUnit::Celsius => Ok(self.value.affine(1, 1, -27315, 100)),
            TemperatureUnit::Fahrenheit => Ok(self.value.affine(9, 5, -45967, 100)),
            TemperatureUnit::Kelvin => Ok(self.value.affine(1, 1, 0, 1)),
        }
    }
}

/// Identity law: the table entry from a temperature unit to itself maps
/// every scalar to an equal one.
pub proof fn lemma_temperature_identity(v: (int, int), u: TemperatureUnit)
    ensures
        ratio_eq(affine_apply(v, temp_table(u, u)), v),
{
    lemma_affine_identity(v, temp_table(u, u));
}

/// Round-trip law: for every pair of temperature units, converting there
/// and back returns an equal scalar.  Zero invariance does not hold in
/// this domain: the tables are affine, not linear, so a zero Celsius
/// scalar becomes thirty-two Fahrenheit.
pub proof fn lemma_temperature_round_trip(v: (int, int), a: TemperatureUnit, b: TemperatureUnit)
    ensures
        ratio_eq(affine_apply(affine_apply(v, temp_table(a, b)), temp_table(b, a)), v),
{
    let i = affine_apply(v, temp_table(a, b));
    let o = affine_apply(i, temp_table(b, a));
    match (a, b) {
        (TemperatureUnit::Celsius, TemperatureUnit::Celsius) => {
            assert(o.0 * v.1 == v.0 * o.1) by (nonlinear_arith)
                requires
                    i.0 == v.0 * 1 * 1 + 0 * (v.1 * 1),
                    i.1 == v.1 * 1 * 1,
                    o.0 == i.0 * 1 * 1 + 0 * (i.1 * 1),
                    o.1 == i.1 * 1 * 1,
            ;
        },
        (TemperatureUnit::Celsius, TemperatureUnit::Fahrenheit) => {
            assert(o.0 * v.1 == v.0 * o.1) by (nonlinear_arith)
                requires
                    i.0 == v.0 * 9 * 1 + 32 * (v.1 * 5),
                    i.1 == v.1 * 5 * 1,
                    o.0 == i.0 * 5 * 9 + (-160) * (i.1 * 9),
                    o.1 == i.1 * 9 * 9,
            ;
        },
        (TemperatureUnit::Celsius, TemperatureUnit::Kelvin) => {
            assert(o.0 * v.1 == v.0 * o.1) by (nonlinear_arith)
                requires
                    i.0 == v.0 * 1 * 100 + 27315 * (v.1 * 1),
                    i.1 == v.1 * 1 * 100,
                    o.0 == i.0 * 1 * 100 + (-27315) * (i.1 * 1),
                    o.1 == i.1 * 1 * 100,
            ;
        },
        (TemperatureUnit::Fahrenheit, TemperatureUnit::Celsius) => {
            assert(o.0 * v.1 == v.0 * o.1) by (nonlinear_arith)
                requires
                    i.0 == v.0 * 5 * 9 + (-160) * (v.1 * 9),
                    i.1 == v.1 * 9 * 9,
                    o.0 == i.0 * 9 * 1 + 32 * (i.1 * 5),
                    o.1 == i.1 * 5 * 1,
            ;
        },
        (TemperatureUnit::Fahrenheit, TemperatureUnit::Fahrenheit) => {
            assert(o.0 * v.1 == v.0 * o.1) by (nonlinear_arith)
                requires
                    i.0 == v.0 * 1 * 1 + 0 * (v.1 * 1),
                    i.1 == v.1 * 1 * 1,
                    o.0 == i.0 * 1 * 1 + 0 * (i.1 * 1),
                    o.1 == i.1 * 1 * 1,
            ;
        },
        (TemperatureUnit::Fahrenheit, TemperatureUnit::Kelvin) => {
            assert(o.0 * v.1 == v.0 * o.1) by (nonlinear_arith)
                requires
                    i.0 == v.0 * 5 * 900 + 229835 * (v.1 * 9),
                    i.1 == v.1 * 9 * 900,
                    o.0 == i.0 * 9 * 100 + (-45967) * (i.1 * 5),
                    o.1 == i.1 * 5 * 100,
            ;
        },
        (TemperatureUnit::Kelvin, TemperatureUnit::Celsius) => {
            assert(o.0 * v.1 == v.0 * o.1) by (nonlinear_arith)
                requires
                    i.0 == v.0 * 1 * 100 + (-27315) * (v.1 * 1),
                    i.1 == v.1 * 1 * 100,
                    o.0 == i.0 * 1 * 100 + 27315 * (i.1 * 1),
                    o.1 == i.1 * 1 * 100,
            ;
        },
        (TemperatureUnit::Kelvin, TemperatureUnit::Fahrenheit) => {
            assert(o.0 * v.1 == v.0 * o.1) by (nonlinear_arith)
                requires
                    i.0 == v.0 * 9 * 100 + (-45967) * (v.1 * 5),
                    i.1 == v.1 * 5 * 100,
                    o.0 == i.0 * 5 * 900 + 229835 * (i.1 * 9),
                    o.1 == i.1 * 9 * 900,
            ;
        },
        (TemperatureUnit::Kelvin, TemperatureUnit::Kelvin) => {
            assert(o.0 * v.1 == v.0 * o.1) by (nonlinear_arith)
                requires
                    i.0 == v.0 * 1 * 1 + 0 * (v.1 * 1),
                    i.1 == v.1 * 1 * 1,
                    o.0 == i.0 * 1 * 1 + 0 * (i.1 * 1),
                    o.1 == i.1 * 1 * 1,
            ;
        },
    }
}

} // verus!
