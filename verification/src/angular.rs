//! Plane-angle converters.
//!
//! Angle conversion is pure scaling between degrees and radians.  The
//! circle constant is carried as the exact decimal 3.141592653589793, so
//! the two table entries are exact inverses of one another and a round
//! trip restores the scalar exactly.

use vstd::prelude::*;

verus! {

use crate::ratio::{
    affine_apply,
    lemma_affine_identity,
    lemma_affine_zero,
    ratio_bounded,
    ratio_eq,
    ratio_wf,
    Ratio,
};
use crate::units::AngleUnit;

/// The conversion table of the angle domain, keyed by source and target
/// unit: degrees scale by 3.141592653589793 / 180 into radians, and
/// radians by its exact reciprocal into degrees.
pub open spec fn angle_table(from: AngleUnit, to: AngleUnit) -> (int, int, int, int) {
    match (from, to) {
        (AngleUnit::Degree, AngleUnit::Degree) => (1, 1, 0, 1),
        (AngleUnit::Degree, AngleUnit::Radian) => (3141592653589793, 180000000000000000, 0, 1),
        (AngleUnit::Radian, AngleUnit::Degree) => (180000000000000000, 3141592653589793, 0, 1),
        (AngleUnit::Radian, AngleUnit::Radian) => (1, 1, 0, 1),
    }
}

/// An angle in degrees.
#[derive(Clone, Copy, Debug)]
pub struct Degree {
    value: Ratio,
}

impl View for Degree {
    type V = (int, int);

    closed spec fn view(&self) -> (int, int) {
        self.value@
    }
}

impl Degree {
    /// A degree angle holding `value`.
    pub fn new(value: Ratio) -> (r: Degree)
        ensures
            r@ == value@,
    {
        Degree { value }
    }

    /// The stored scalar value.
    pub fn scalar(&self) -> (r: Ratio)
        ensures
            r@ == self@,
    {
        self.value
    }

    /// The type's own domain tag.
    pub fn unit(&self) -> (u: AngleUnit)
        ensures
            u == AngleUnit::Degree,
    {
        AngleUnit::Degree
    }

    /// The stored scalar expressed in `to_unit`, exactly over the table's
    /// decimal circle constant.  The table is complete, so every target
    /// succeeds.
    pub fn convert_scalar(&self, to_unit: &AngleUnit) -> (r: Result<Ratio, &'static str>)
        requires
            ratio_bounded(self@),
        ensures
            match r {
                Ok(v) => ratio_wf(v@) && ratio_eq(
                    v@,
                    affine_apply(self@, angle_table(AngleUnit::Degree, *to_unit)),
                ),
                Err(_) => false,
            },
    {
        match to_unit {
            AngleUnit::Degree => Ok(self.value.affine(1, 1, 0, 1)),
            AngleUnit::Radian => Ok(self.value.affine(3141592653589793, 180000000000000000, 0, 1)),
        }
    }
}

/// An angle in radians.
#[derive(Clone, Copy, Debug)]
pub struct Radian {
    value: Ratio,
}

impl View for Radian {
    type V = (int, int);

    closed spec fn view(&self) -> (int, int) {
        self.value@
    }
}

impl Radian {
    /// A radian angle holding `value`.
    pub fn new(value: Ratio) -> (r: Radian)
        ensures
            r@ == value@,
    {
        Radian { value }
    }

    /// The stored scalar value.
    pub fn scalar(&self) -> (r: Ratio)
        ensures
            r@ == self@,
    {
        self.value
    }

    /// The type's own domain tag.
    pub fn unit(&self) -> (u: AngleUnit)
        ensures
            u == AngleUnit::Radian,
    {
        AngleUnit::Radian
    }

    /// The stored scalar expressed in `to_unit`, exactly over the table's
    /// decimal circle constant.  The table is complete, so every target
    /// succeeds.
    pub fn convert_scalar(&self, to_unit: &AngleUnit) -> (r: Result<Ratio, &'static str>)
        requires
            ratio_bounded(self@),
        ensures
            match r {
                Ok(v) => ratio_wf(v@) && ratio_eq(
                    v@,
                    affine_apply(self@, angle_table(AngleUnit::Radian, *to_unit)),
                ),
                Err(_) => false,
            },
    {
        match to_unit {
            AngleUnit::Degree => Ok(self.value.affine(180000000000000000, 3141592653589793, 0, 1)),
            AngleUnit::Radian => Ok(self.value.affine(1, 1, 0, 1)),
        }
    }
}

/// Identity law: the table entry from an angle unit to itself maps every
/// scalar to an equal one.
pub proof fn lemma_angle_identity(v: (int, int), u: AngleUnit)
    ensures
        ratio_eq(affine_apply(v, angle_table(u, u)), v),
{
    lemma_affine_identity(v, angle_table(u, u));
}

/// Zero-invariance law: a zero scalar converts to an exact zero under
/// every entry of the angle table.
pub proof fn lemma_angle_zero(v: (int, int), from: AngleUnit, to: AngleUnit)
    requires
        v.0 == 0,
    ensures
        ratio_eq(affine_apply(v, angle_table(from, to)), (0, 1)),
{
    lemma_affine_zero(v, angle_table(from, to));
}

/// Round-trip law: for every pair of angle units, converting there and
/// back returns an equal scalar.
pub proof fn lemma_angle_round_trip(v: (int, int), a: AngleUnit, b: AngleUnit)
    ensures
        ratio_eq(affine_apply(affine_apply(v, angle_table(a, b)), angle_table(b, a)), v),
{
    let i = affine_apply(v, angle_table(a, b));
    let o = affine_apply(i, angle_table(b, a));
    match (a, b) {
        (AngleUnit::Degree, AngleUnit::Degree) => {
            assert(o.0 * v.1 == v.0 * o.1) by (nonlinear_arith)
                requires
                    i.0 == v.0 * 1 * 1 + 0 * (v.1 * 1),
                    i.1 == v.1 * 1 * 1,
                    o.0 == i.0 * 1 * 1 + 0 * (i.1 * 1),
                    o.1 == i.1 * 1 * 1,
            ;
        },
        (AngleUnit::Degree, AngleUnit::Radian) => {
            assert(o.0 * v.1 == v.0 * o.1) by (nonlinear_arith)
                requires
                    i.0 == v.0 * 3141592653589793 * 1 + 0 * (v.1 * 180000000000000000),
                    i.1 == v.1 * 180000000000000000 * 1,
                    o.0 == i.0 * 180000000000000000 * 1 + 0 * (i.1 * 3141592653589793),
                    o.1 == i.1 * 3141592653589793 * 1,
            ;
        },
        (AngleUnit::Radian, AngleUnit::Degree) => {
            assert(o.0 * v.1 == v.0 * o.1) by (nonlinear_arith)
                requires
                    i.0 == v.0 * 180000000000000000 * 1 + 0 * (v.1 * 3141592653589793),
                    i.1 == v.1 * 3141592653589793 * 1,
                    o.0 == i.0 * 3141592653589793 * 1 + 0 * (i.1 * 180000000000000000),
                    o.1 == i.1 * 180000000000000000 * 1,
            ;
        },
        (AngleUnit::Radian, AngleUnit::Radian) => {
            assert(o.0 * v.1 == v.0 * o.1) by (nonlinear_arith)
                requires
                    i.0 == v.0 * 1 * 1 + 0 * (v.1 * 1),
                    i.1 == v.1 * 1 * 1,
                    o.0 == i.0 * 1 * 1 + 0 * (i.1 * 1),
                    o.1 == i.1 * 1 * 1,
            ;
        },
    }
}

} // verus!
