//! Unit tables. Length conversion factors to millimetres are exact rationals
//! and are given as numerator/denominator pairs; angle and density units are
//! classified so that callers apply the right factor.

use vstd::prelude::*;
use crate::text::str_eq;

verus! {

/// The default length unit for positions and solid dimensions.
pub fn default_length_unit() -> (r: &'static str)
    ensures
        r@ == "mm"@,
{
    "mm"
}

/// The default angle unit for rotations and angular sweeps.
pub fn default_angle_unit() -> (r: &'static str)
    ensures
        r@ == "rad"@,
{
    "rad"
}

/// Conversion factor from a length unit to millimetres, as an exact rational
/// `(numerator, denominator)`; unknown units convert with factor 1 (they are
/// treated as millimetres).
pub open spec fn length_unit_num_spec(u: Seq<char>) -> (int, int) {
    if u == "mm"@ {
        (1int, 1int)
    } else if u == "cm"@ {
        (10int, 1int)
    } else if u == "m"@ {
        (1000int, 1int)
    } else if u == "um"@ || u == "micrometer"@ {
        (1int, 1000int)
    } else if u == "nm"@ || u == "nanometer"@ {
        (1int, 1000000int)
    } else if u == "km"@ {
        (1000000int, 1int)
    } else if u == "in"@ || u == "inch"@ {
        (254int, 10int)
    } else if u == "ft"@ || u == "foot"@ {
        (3048int, 10int)
    } else {
        (1int, 1int)
    }
}

/// The exact factor that takes a value in `unit` to millimetres:
/// `v_mm == v * num / den`.
pub fn length_unit_num(unit: &str) -> (r: (u64, u64))
    ensures
        (r.0 as int, r.1 as int) == length_unit_num_spec(unit@),
        r.1 > 0,
{
    if str_eq(unit, "mm") {
        (1, 1)
    } else if str_eq(unit, "cm") {
        (10, 1)
    } else if str_eq(unit, "m") {
        (1000, 1)
    } else if str_eq(unit, "um") || str_eq(unit, "micrometer") {
        (1, 1000)
    } else if str_eq(unit, "nm") || str_eq(unit, "nanometer") {
        (1, 1000000)
    } else if str_eq(unit, "km") {
        (1000000, 1)
    } else if str_eq(unit, "in") || str_eq(unit, "inch") {
        (254, 10)
    } else if str_eq(unit, "ft") || str_eq(unit, "foot") {
        (3048, 10)
    } else {
        (1, 1)
    }
}

/// Angle units: degrees scale by pi/180, radians by 1, milliradians by 1/1000;
/// anything else is taken as radians.
#[derive(Debug, PartialEq, Eq, Structural, Clone, Copy)]
pub enum AngleUnit {
    Degree,
    Radian,
    Milliradian,
}

pub open spec fn angle_unit_kind_spec(u: Seq<char>) -> AngleUnit {
    if u == "deg"@ || u == "degree"@ {
        AngleUnit::Degree
    } else if u == "mrad"@ {
        AngleUnit::Milliradian
    } else {
        AngleUnit::Radian
    }
}

/// Classifies an angle unit string.
pub fn angle_unit_kind(unit: &str) -> (r: AngleUnit)
    ensures
        r == angle_unit_kind_spec(unit@),
{
    if str_eq(unit, "deg") || str_eq(unit, "degree") {
        AngleUnit::Degree
    } else if str_eq(unit, "mrad") {
        AngleUnit::Milliradian
    } else {
        AngleUnit::Radian
    }
}

/// Density units that must be divided by 1000 to become g/cm3; `cm3` and
/// `cm³` are synonyms, and so are `m3` and `m³`. Anything else is already
/// g/cm3 (divisor 1).
pub open spec fn density_unit_divisor_spec(u: Seq<char>) -> int {
    if u == "kg/m3"@ || u == "kg/m³"@ || u == "mg/cm3"@ || u == "mg/cm³"@ {
        1000int
    } else {
        1int
    }
}

/// The divisor that takes a density in `unit` to g/cm3.
pub fn density_unit_divisor(unit: &str) -> (r: u64)
    ensures
        r as int == density_unit_divisor_spec(unit@),
{
    if str_eq(unit, "kg/m3") || str_eq(unit, "kg/m³") || str_eq(unit, "mg/cm3") || str_eq(
        unit,
        "mg/cm³",
    ) {
        1000
    } else {
        1
    }
}

} // verus!
