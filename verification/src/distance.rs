//! Distance converters.
//!
//! Each concrete unit type owns a conversion table from itself to the
//! distance units it supports.  `Millimeter` deliberately supports only
//! the metric targets and rejects `Mile` and `AstronomicalUnit`, while
//! `Kilometer` supports every distance unit; the asymmetry of the tables
//! is part of the interface and is kept literally.

use vstd::prelude::*;

verus! {

use crate::ratio::{
    affine_apply,
    factor_ok,
    lemma_affine_identity,
    lemma_affine_zero,
    ratio_bounded,
    ratio_eq,
    ratio_wf,
    Ratio,
};
use crate::units::DistanceUnit;

/// Whether `Millimeter` has a table entry for `to`.
pub open spec fn millimeter_supports(to: DistanceUnit) -> bool {
    match to {
        DistanceUnit::Millimeter => true,
        DistanceUnit::Centimeter => true,
        DistanceUnit::Meter => true,
        DistanceUnit::Kilometer => true,
        DistanceUnit::Mile => false,
        DistanceUnit::AstronomicalUnit => false,
    }
}

/// The conversion table of `Millimeter`: pure scaling, no offset.  The
/// entry for an unsupported target is never used.
pub open spec fn millimeter_table(to: DistanceUnit) -> (int, int, int, int) {
    match to {
        DistanceUnit::Millimeter => (1, 1, 0, 1),
        DistanceUnit::Centimeter => (1, 10, 0, 1),
        DistanceUnit::Meter => (1, 1000, 0, 1),
        DistanceUnit::Kilometer => (1, 1000000, 0, 1),
        DistanceUnit::Mile => (0, 1, 0, 1),
        DistanceUnit::AstronomicalUnit => (0, 1, 0, 1),
    }
}

/// The conversion table of `Kilometer`: complete over the domain.  The
/// factor to `Mile` divides by the exact mile length 1.609344 km, the one
/// to `AstronomicalUnit` multiplies by the exact constant 6.685e-9.
pub open spec fn kilometer_table(to: DistanceUnit) -> (int, int, int, int) {
    match to {
        DistanceUnit::Millimeter => (1000000, 1, 0, 1),
        DistanceUnit::Centimeter => (100000, 1, 0, 1),
        DistanceUnit::Meter => (1000, 1, 0, 1),
        DistanceUnit::Kilometer => (1, 1, 0, 1),
        DistanceUnit::Mile => (1000000, 1609344, 0, 1),
        DistanceUnit::AstronomicalUnit => (6685, 1000000000000, 0, 1),
    }
}

/// A quantity of millimetres.
#[derive(Clone, Copy, Debug)]
pub struct Millimeter {
    value: Ratio,
}

impl View for Millimeter {
    type V = (int, int);

    closed spec fn view(&self) -> (int, int) {
        self.value@
    }
}

impl Millimeter {
    /// A millimetre quantity holding `value`.
    pub fn new(value: Ratio) -> (r: Millimeter)
        ensures
            r@ == value@,
    {
        Millimeter { value }
    }

    /// The stored scalar value.
    pub fn scalar(&self) -> (r: Ratio)
        ensures
            r@ == self@,
    {
        self.value
    }

    /// The type's own domain tag.
    pub fn unit(&self) -> (u: DistanceUnit)
        ensures
            u == DistanceUnit::Millimeter,
    {
        DistanceUnit::Millimeter
    }

    /// The stored scalar expressed in `to_unit`, exactly; or the
    /// unsupported-pair error for the targets the millimetre table lacks,
    /// and only for those.
    pub fn convert_scalar(&self, to_unit: &DistanceUnit) -> (r: Result<Ratio, &'static str>)
        requires
            ratio_bounded(self@),
        ensures
            match r {
                Ok(v) => millimeter_supports(*to_unit) && ratio_wf(v@) && ratio_eq(
                    v@,
                    affine_apply(self@, millimeter_table(*to_unit)),
                ),
                Err(e) => !millimeter_supports(*to_unit) && e@ == "Millimeter misses some distances"@,
            },
    {
        match to_unit {
            DistanceUnit::Millimeter => Ok(self.value.affine(1, 1, 0, 1)),
            DistanceUnit::Centimeter => Ok(self.value.affine(1, 10, 0, 1)),
            DistanceUnit::Meter => Ok(self.value.affine(1, 1000, 0, 1)),
            DistanceUnit::Kilometer => Ok(self.value.affine(1, 1000000, 0, 1)),
            _ => Err("Millimeter misses some distances"),
        }
    }
}

/// A quantity of kilometres.
#[derive(Clone, Copy, Debug)]
pub struct Kilometer {
    value: Ratio,
}

impl View for Kilometer {
    type V = (int, int);

    closed spec fn view(&self) -> (int, int) {
        self.value@
    }
}

impl Kilometer {
    /// A kilometre quantity holding `value`.
    pub fn new(value: Ratio) -> (r: Kilometer)
        ensures
            r@ == value@,
    {
        Kilometer { value }
    }

    /// The stored scalar value.
    pub fn scalar(&self) -> (r: Ratio)
        ensures
            r@ == self@,
    {
        self.value
    }

    /// The type's own domain tag.
    pub fn unit(&self) -> (u: DistanceUnit)
        ensures
            u == DistanceUnit::Kilometer,
    {
        DistanceUnit::Kilometer
    }

    /// The stored scalar expressed in `to_unit`, exactly.  The kilometre
    /// table is complete, so every target succeeds.  A zero scalar
    /// short-circuits to an exact zero without consulting the table, which
    /// is observationally the same because every table entry is a pure
    /// scaling.
    pub fn convert_scalar(&self, to_unit: &DistanceUnit) -> (r: Result<Ratio, &'static str>)
        requires
            ratio_bounded(self@),
        ensures
            match r {
                Ok(v) => ratio_wf(v@) && ratio_eq(v@, affine_apply(self@, kilometer_table(*to_unit))),
                Err(_) => false,
            },
    {
        if self.value.is_zero() {
            let z = Ratio::new(0, 1);
            proof {
                lemma_affine_zero(self@, kilometer_table(*to_unit));
            }
            return Ok(z);
        }
        match to_unit {
            DistanceUnit::Millimeter => Ok(self.value.affine(1000000, 1, 0, 1)),
            DistanceUnit::Centimeter => Ok(self.value.affine(100000, 1, 0, 1)),
            DistanceUnit::Meter => Ok(self.value.affine(1000, 1, 0, 1)),
            DistanceUnit::Kilometer => Ok(self.value.affine(1, 1, 0, 1)),
            DistanceUnit::Mile => Ok(self.value.affine(1000000, 1609344, 0, 1)),
            DistanceUnit::AstronomicalUnit => Ok(self.value.affine(6685, 1000000000000, 0, 1)),
        }
    }
}

/// Identity law: each distance type's table entry for its own unit maps
/// every scalar to an equal one.
pub proof fn lemma_distance_identity(v: (int, int))
    ensures
        ratio_eq(affine_apply(v, millimeter_table(DistanceUnit::Millimeter)), v),
        ratio_eq(affine_apply(v, kilometer_table(DistanceUnit::Kilometer)), v),
{
    lemma_affine_identity(v, millimeter_table(DistanceUnit::Millimeter));
    lemma_affine_identity(v, kilometer_table(DistanceUnit::Kilometer));
}

/// Zero-invariance law: a zero scalar converts to an exact zero under
/// every entry of either distance table.
pub proof fn lemma_distance_zero(v: (int, int), to: DistanceUnit)
    requires
        v.0 == 0,
    ensures
        millimeter_supports(to) ==> ratio_eq(affine_apply(v, millimeter_table(to)), (0, 1)),
        ratio_eq(affine_apply(v, kilometer_table(to)), (0, 1)),
{
    lemma_affine_zero(v, millimeter_table(to));
    lemma_affine_zero(v, kilometer_table(to));
}

/// Round-trip law: converting millimetres to kilometres and back, or
/// kilometres to millimetres and back, returns an equal scalar.
pub proof fn lemma_distance_round_trip(v: (int, int))
    ensures
        ratio_eq(
            affine_apply(
                affine_apply(v, millimeter_table(DistanceUnit::Kilometer)),
                kilometer_table(DistanceUnit::Millimeter),
            ),
            v,
        ),
        ratio_eq(
            affine_apply(
                affine_apply(v, kilometer_table(DistanceUnit::Millimeter)),
                millimeter_table(DistanceUnit::Kilometer),
            ),
            v,
        ),
{
    let i1 = affine_apply(v, millimeter_table(DistanceUnit::Kilometer));
    let o1 = affine_apply(i1, kilometer_table(DistanceUnit::Millimeter));
    assert(o1.0 * v.1 == v.0 * o1.1) by (nonlinear_arith)
        requires
            i1.0 == v.0 * 1 * 1 + 0 * (v.1 * 1000000),
            i1.1 == v.1 * 1000000 * 1,
            o1.0 == i1.0 * 1000000 * 1 + 0 * (i1.1 * 1),
            o1.1 == i1.1 * 1 * 1,
    ;
    let i2 = affine_apply(v, kilometer_table(DistanceUnit::Millimeter));
    let o2 = affine_apply(i2, millimeter_table(DistanceUnit::Kilometer));
    assert(o2.0 * v.1 == v.0 * o2.1) by (nonlinear_arith)
        requires
            i2.0 == v.0 * 1000000 * 1 + 0 * (v.1 * 1),
            i2.1 == v.1 * 1 * 1,
            o2.0 == i2.0 * 1 * 1 + 0 * (i2.1 * 1000000),
            o2.1 == i2.1 * 1000000 * 1,
    ;
}

} // verus!
