//! The conversion table: one exact formula for every ordered pair of units
//! within one family.
//!
//! Every formula is the affine map `n |-> (a*n + b) / d` for integer
//! coefficients `(a, b, d)` with `d > 0`; the volume conversions are pure
//! scalings (`b == 0`). Values are exact rationals, so applying a formula to
//! `num / den` yields `(a*num + b*den) / (d*den)` with no rounding.

use vstd::prelude::*;
use vstd::math::abs;
use crate::rat::Rat;
use crate::rat::close_val;
use crate::units::Family;
use crate::units::Unit;

verus! {

/// Coefficients `(a, b, d)` of the affine formula `(a*n + b) / d` for the
/// ordered pair `(from, to)` of distinct units of one family; `(1, 0, 1)`
/// (the identity) for every other pair.
pub open spec fn coeffs(from: Unit, to: Unit) -> (int, int, int) {
    match (from, to) {
        (Unit::Kelvin, Unit::Celsius) => (100, -27315, 100),
        (Unit::Kelvin, Unit::Fahrenheit) => (180, -45967, 100),
        (Unit::Kelvin, Unit::Rankine) => (9, 0, 5),
        (Unit::Celsius, Unit::Kelvin) => (100, 27315, 100),
        (Unit::Celsius, Unit::Fahrenheit) => (9, 160, 5),
        (Unit::Celsius, Unit::Rankine) => (180, 49167, 100),
        (Unit::Fahrenheit, Unit::Kelvin) => (100, 45967, 180),
        (Unit::Fahrenheit, Unit::Celsius) => (5, -160, 9),
        (Unit::Fahrenheit, Unit::Rankine) => (100, 45967, 100),
        (Unit::Rankine, Unit::Kelvin) => (5, 0, 9),
        (Unit::Rankine, Unit::Celsius) => (100, -49167, 180),
        (Unit::Rankine, Unit::Fahrenheit) => (100, -45967, 100),
        (Unit::Liters, Unit::Tablespoons) => (67628, 0, 1000),
        (Unit::Liters, Unit::CubicInches) => (61023, 0, 1000),
        (Unit::Liters, Unit::Cups) => (4226, 0, 1000),
        (Unit::Liters, Unit::CubicFeet) => (353, 0, 10000),
        (Unit::Liters, Unit::Gallons) => (2641, 0, 10000),
        (Unit::Tablespoons, Unit::Liters) => (147, 0, 10000),
        (Unit::Tablespoons, Unit::CubicInches) => (902, 0, 1000),
        (Unit::Tablespoons, Unit::Cups) => (62, 0, 1000),
        (Unit::Tablespoons, Unit::CubicFeet) => (52219, 0, 100000000),
        (Unit::Tablespoons, Unit::Gallons) => (390625, 0, 100000000),
        (Unit::CubicInches, Unit::Liters) => (163, 0, 10000),
        (Unit::CubicInches, Unit::Tablespoons) => (110823, 0, 100000),
        (Unit::CubicInches, Unit::Cups) => (6926, 0, 100000),
        (Unit::CubicInches, Unit::CubicFeet) => (578704, 0, 1000000000),
        (Unit::CubicInches, Unit::Gallons) => (4329, 0, 1000000),
        (Unit::Cups, Unit::Liters) => (236588, 0, 1000000),
        (Unit::Cups, Unit::CubicInches) => (144375, 0, 10000),
        (Unit::Cups, Unit::Tablespoons) => (16, 0, 1),
        (Unit::Cups, Unit::CubicFeet) => (835, 0, 100000),
        (Unit::Cups, Unit::Gallons) => (625, 0, 10000),
        (Unit::CubicFeet, Unit::Liters) => (283168, 0, 10000),
        (Unit::CubicFeet, Unit::CubicInches) => (1728, 0, 1),
        (Unit::CubicFeet, Unit::Tablespoons) => (191501, 0, 100),
        (Unit::CubicFeet, Unit::Cups) => (119688, 0, 1000),
        (Unit::CubicFeet, Unit::Gallons) => (748052, 0, 100000),
        (Unit::Gallons, Unit::Liters) => (3785, 0, 1000),
        (Unit::Gallons, Unit::CubicInches) => (231, 0, 1),
        (Unit::Gallons, Unit::Tablespoons) => (256, 0, 1),
        (Unit::Gallons, Unit::CubicFeet) => (133, 0, 1000),
        (Unit::Gallons, Unit::Cups) => (16, 0, 1),
        _ => (1, 0, 1),
    }
}

// Temperature conversions
// ----------------------------------------

/// Kelvin to Celsius: `n - 273.15`.
pub fn kel_cel(n: Rat) -> (r: Rat)
    requires
        n.in_range(),
    ensures
        r.num == 100 * n.num - 27315 * n.den,
        r.den == 100 * n.den,
{
    Rat { num: 100 * n.num - 27315 * n.den, den: 100 * n.den }
}

/// Kelvin to Fahrenheit: `(n - 273.15) * 9/5 + 32`, i.e. `1.8*n - 459.67`.
pub fn kel_fah(n: Rat) -> (r: Rat)
    requires
        n.in_range(),
    ensures
        r.num == 180 * n.num - 45967 * n.den,
        r.den == 100 * n.den,
{
    Rat { num: 180 * n.num - 45967 * n.den, den: 100 * n.den }
}

/// Kelvin to Rankine: `n * 1.8`.
pub fn kel_ran(n: Rat) -> (r: Rat)
    requires
        n.in_range(),
    ensures
        r.num == 9 * n.num,
        r.den == 5 * n.den,
{
    Rat { num: 9 * n.num, den: 5 * n.den }
}

/// Celsius to Kelvin: `n + 273.15`.
pub fn cel_kel(n: Rat) -> (r: Rat)
    requires
        n.in_range(),
    ensures
        r.num == 100 * n.num + 27315 * n.den,
        r.den == 100 * n.den,
{
    Rat { num: 100 * n.num + 27315 * n.den, den: 100 * n.den }
}

/// Celsius to Fahrenheit: `n * 9/5 + 32`.
pub fn cel_fah(n: Rat) -> (r: Rat)
    requires
        n.in_range(),
    ensures
        r.num == 9 * n.num + 160 * n.den,
        r.den == 5 * n.den,
{
    Rat { num: 9 * n.num + 160 * n.den, den: 5 * n.den }
}

/// Celsius to Rankine: `n * 9/5 + 491.67`.
pub fn cel_ran(n: Rat) -> (r: Rat)
    requires
        n.in_range(),
    ensures
        r.num == 180 * n.num + 49167 * n.den,
        r.den == 100 * n.den,
{
    Rat { num: 180 * n.num + 49167 * n.den, den: 100 * n.den }
}

/// Fahrenheit to Kelvin: `(n - 32) * 5/9 + 273.15`.
pub fn fah_kel(n: Rat) -> (r: Rat)
    requires
        n.in_range(),
    ensures
        r.num == 100 * n.num + 45967 * n.den,
        r.den == 180 * n.den,
{
    Rat { num: 100 * n.num + 45967 * n.den, den: 180 * n.den }
}

/// Fahrenheit to Celsius: `(n - 32) * 5/9`.
pub fn fah_cel(n: Rat) -> (r: Rat)
    requires
        n.in_range(),
    ensures
        r.num == 5 * n.num - 160 * n.den,
        r.den == 9 * n.den,
{
    Rat { num: 5 * n.num - 160 * n.den, den: 9 * n.den }
}

/// Fahrenheit to Rankine: `n + 459.67`.
pub fn fah_ran(n: Rat) -> (r: Rat)
    requires
        n.in_range(),
    ensures
        r.num == 100 * n.num + 45967 * n.den,
        r.den == 100 * n.den,
{
    Rat { num: 100 * n.num + 45967 * n.den, den: 100 * n.den }
}

/// Rankine to Kelvin: `n * 5/9`.
pub fn ran_kel(n: Rat) -> (r: Rat)
    requires
        n.in_range(),
    ensures
        r.num == 5 * n.num,
        r.den == 9 * n.den,
{
    Rat { num: 5 * n.num, den: 9 * n.den }
}

/// Rankine to Celsius: `n * 5/9 - 273.15`.
pub fn ran_cel(n: Rat) -> (r: Rat)
    requires
        n.in_range(),
    ensures
        r.num == 100 * n.num - 49167 * n.den,
        r.den == 180 * n.den,
{
    Rat { num: 100 * n.num - 49167 * n.den, den: 180 * n.den }
}

/// Rankine to Fahrenheit: `n - 459.67`.
pub fn ran_fah(n: Rat) -> (r: Rat)
    requires
        n.in_range(),
    ensures
        r.num == 100 * n.num - 45967 * n.den,
        r.den == 100 * n.den,
{
    Rat { num: 100 * n.num - 45967 * n.den, den: 100 * n.den }
}

// Volume conversions
// ----------------------------------------

/// Liters to tablespoons: `n * 67.628`.
pub fn lit_tab(n: Rat) -> (r: Rat)
    requires
        n.in_range(),
    ensures
        r.num == 67628 * n.num,
        r.den == 1000 * n.den,
{
    Rat { num: 67628 * n.num, den: 1000 * n.den }
}

/// Liters to cubic inches: `n * 61.023`.
pub fn lit_ci(n: Rat) -> (r: Rat)
    requires
        n.in_range(),
    ensures
        r.num == 61023 * n.num,
        r.den == 1000 * n.den,
{
    Rat { num: 61023 * n.num, den: 1000 * n.den }
}

/// Liters to cups: `n * 4.226`.
pub fn lit_cups(n: Rat) -> (r: Rat)
    requires
        n.in_range(),
    ensures
        r.num == 4226 * n.num,
        r.den == 1000 * n.den,
{
    Rat { num: 4226 * n.num, den: 1000 * n.den }
}

/// Liters to cubic feet: `n * 0.0353`.
pub fn lit_cf(n: Rat) -> (r: Rat)
    requires
        n.in_range(),
    ensures
        r.num == 353 * n.num,
        r.den == 10000 * n.den,
{
    Rat { num: 353 * n.num, den: 10000 * n.den }
}

/// Liters to gallons: `n * 0.2641`.
pub fn lit_gal(n: Rat) -> (r: Rat)
    requires
        n.in_range(),
    ensures
        r.num == 2641 * n.num,
        r.den == 10000 * n.den,
{
    Rat { num: 2641 * n.num, den: 10000 * n.den }
}

/// Tablespoons to liters: `n * 0.0147`.
pub fn tab_lit(n: Rat) -> (r: Rat)
    requires
        n.in_range(),
    ensures
        r.num == 147 * n.num,
        r.den == 10000 * n.den,
{
    Rat { num: 147 * n.num, den: 10000 * n.den }
}

/// Tablespoons to cubic inches: `n * 0.902`.
pub fn tab_ci(n: Rat) -> (r: Rat)
    requires
        n.in_range(),
    ensures
        r.num == 902 * n.num,
        r.den == 1000 * n.den,
{
    Rat { num: 902 * n.num, den: 1000 * n.den }
}

/// Tablespoons to cups: `n * 0.062`.
pub fn tab_cups(n: Rat) -> (r: Rat)
    requires
        n.in_range(),
    ensures
        r.num == 62 * n.num,
        r.den == 1000 * n.den,
{
    Rat { num: 62 * n.num, den: 1000 * n.den }
}

/// Tablespoons to cubic feet: `n * 0.00052219`.
pub fn tab_cf(n: Rat) -> (r: Rat)
    requires
        n.in_range(),
    ensures
        r.num == 52219 * n.num,
        r.den == 100000000 * n.den,
{
    Rat { num: 52219 * n.num, den: 100000000 * n.den }
}

/// Tablespoons to gallons: `n * 0.00390625`.
pub fn tab_gal(n: Rat) -> (r: Rat)
    requires
        n.in_range(),
    ensures
        r.num == 390625 * n.num,
        r.den == 100000000 * n.den,
{
    Rat { num: 390625 * n.num, den: 100000000 * n.den }
}

/// Cubic inches to liters: `n * 0.0163`.
pub fn ci_lit(n: Rat) -> (r: Rat)
    requires
        n.in_range(),
    ensures
        r.num == 163 * n.num,
        r.den == 10000 * n.den,
{
    Rat { num: 163 * n.num, den: 10000 * n.den }
}

/// Cubic inches to tablespoons: `n * 1.10823`.
pub fn ci_tab(n: Rat) -> (r: Rat)
    requires
        n.in_range(),
    ensures
        r.num == 110823 * n.num,
        r.den == 100000 * n.den,
{
    Rat { num: 110823 * n.num, den: 100000 * n.den }
}

/// Cubic inches to cups: `n * 0.06926`.
pub fn ci_cups(n: Rat) -> (r: Rat)
    requires
        n.in_range(),
    ensures
        r.num == 6926 * n.num,
        r.den == 100000 * n.den,
{
    Rat { num: 6926 * n.num, den: 100000 * n.den }
}

/// Cubic inches to cubic feet: `n * 0.000578704`.
pub fn ci_cf(n: Rat) -> (r: Rat)
    requires
        n.in_range(),
    ensures
        r.num == 578704 * n.num,
        r.den == 1000000000 * n.den,
{
    Rat { num: 578704 * n.num, den: 1000000000 * n.den }
}

/// Cubic inches to gallons: `n * 0.004329`.
pub fn ci_gal(n: Rat) -> (r: Rat)
    requires
        n.in_range(),
    ensures
        r.num == 4329 * n.num,
        r.den == 1000000 * n.den,
{
    Rat { num: 4329 * n.num, den: 1000000 * n.den }
}

/// Cups to liters: `n * 0.236588`.
pub fn cups_lit(n: Rat) -> (r: Rat)
    requires
        n.in_range(),
    ensures
        r.num == 236588 * n.num,
        r.den == 1000000 * n.den,
{
    Rat { num: 236588 * n.num, den: 1000000 * n.den }
}

/// Cups to cubic inches: `n * 14.4375`.
pub fn cups_ci(n: Rat) -> (r: Rat)
    requires
        n.in_range(),
    ensures
        r.num == 144375 * n.num,
        r.den == 10000 * n.den,
{
    Rat { num: 144375 * n.num, den: 10000 * n.den }
}

/// Cups to tablespoons: `n * 16`.
pub fn cups_tab(n: Rat) -> (r: Rat)
    requires
        n.in_range(),
    ensures
        r.num == 16 * n.num,
        r.den == n.den,
{
    Rat { num: 16 * n.num, den: n.den }
}

/// Cups to cubic feet: `n * 0.00835`.
pub fn cups_cf(n: Rat) -> (r: Rat)
    requires
        n.in_range(),
    ensures
        r.num == 835 * n.num,
        r.den == 100000 * n.den,
{
    Rat { num: 835 * n.num, den: 100000 * n.den }
}

/// Cups to gallons: `n * 0.0625`.
pub fn cups_gal(n: Rat) -> (r: Rat)
    requires
        n.in_range(),
    ensures
        r.num == 625 * n.num,
        r.den == 10000 * n.den,
{
    Rat { num: 625 * n.num, den: 10000 * n.den }
}

/// Cubic feet to liters: `n * 28.3168`.
pub fn cf_lit(n: Rat) -> (r: Rat)
    requires
        n.in_range(),
    ensures
        r.num == 283168 * n.num,
        r.den == 10000 * n.den,
{
    Rat { num: 283168 * n.num, den: 10000 * n.den }
}

/// Cubic feet to cubic inches: `n * 1728`.
pub fn cf_ci(n: Rat) -> (r: Rat)
    requires
        n.in_range(),
    ensures
        r.num == 1728 * n.num,
        r.den == n.den,
{
    Rat { num: 1728 * n.num, den: n.den }
}

/// Cubic feet to tablespoons: `n * 1915.01`.
pub fn cf_tab(n: Rat) -> (r: Rat)
    requires
        n.in_range(),
    ensures
        r.num == 191501 * n.num,
        r.den == 100 * n.den,
{
    Rat { num: 191501 * n.num, den: 100 * n.den }
}

/// Cubic feet to cups: `n * 119.688`.
pub fn cf_cups(n: Rat) -> (r: Rat)
    requires
        n.in_range(),
    ensures
        r.num == 119688 * n.num,
        r.den == 1000 * n.den,
{
    Rat { num: 119688 * n.num, den: 1000 * n.den }
}

/// Cubic feet to gallons: `n * 7.48052`.
pub fn cf_gal(n: Rat) -> (r: Rat)
    requires
        n.in_range(),
    ensures
        r.num == 748052 * n.num,
        r.den == 100000 * n.den,
{
    Rat { num: 748052 * n.num, den: 100000 * n.den }
}

/// Gallons to liters: `n * 3.785`.
pub fn gal_lit(n: Rat) -> (r: Rat)
    requires
        n.in_range(),
    ensures
        r.num == 3785 * n.num,
        r.den == 1000 * n.den,
{
    Rat { num: 3785 * n.num, den: 1000 * n.den }
}

/// Gallons to cubic inches: `n * 231`.
pub fn gal_ci(n: Rat) -> (r: Rat)
    requires
        n.in_range(),
    ensures
        r.num == 231 * n.num,
        r.den == n.den,
{
    Rat { num: 231 * n.num, den: n.den }
}

/// Gallons to tablespoons: `n * 256`.
pub fn gal_tab(n: Rat) -> (r: Rat)
    requires
        n.in_range(),
    ensures
        r.num == 256 * n.num,
        r.den == n.den,
{
    Rat { num: 256 * n.num, den: n.den }
}

/// Gallons to cubic feet: `n * 0.133`.
pub fn gal_cf(n: Rat) -> (r: Rat)
    requires
        n.in_range(),
    ensures
        r.num == 133 * n.num,
        r.den == 1000 * n.den,
{
    Rat { num: 133 * n.num, den: 1000 * n.den }
}

/// Gallons to cups: `n * 16`.
pub fn gal_cups(n: Rat) -> (r: Rat)
    requires
        n.in_range(),
    ensures
        r.num == 16 * n.num,
        r.den == n.den,
{
    Rat { num: 16 * n.num, den: n.den }
}

/// Converts `value` from one unit to another.
///
/// The conversion is defined exactly when the two units belong to the same
/// family. Converting a unit to itself returns the value unchanged; a
/// cross-family request yields `None` (a legitimate outcome, not an error);
/// any other same-family pair applies the unique formula of the table.
pub fn convert(from: Unit, to: Unit, value: Rat) -> (r: Option<Rat>)
    requires
        value.in_range(),
    ensures
        r is Some <==> from.family() == to.family(),
        from == to ==> r == Some(value),
        from != to && from.family() == to.family() ==> (r matches Some(w)
            && w.num == coeffs(from, to).0 * value.num + coeffs(from, to).1 * value.den
            && w.den == coeffs(from, to).2 * value.den),
{
    if from == to {
        return Some(value);
    }
    match (from, to) {
        (Unit::Kelvin, Unit::Celsius) => Some(kel_cel(value)),
        (Unit::Kelvin, Unit::Fahrenheit) => Some(kel_fah(value)),
        (Unit::Kelvin, Unit::Rankine) => Some(kel_ran(value)),
        (Unit::Celsius, Unit::Kelvin) => Some(cel_kel(value)),
        (Unit::Celsius, Unit::Fahrenheit) => Some(cel_fah(value)),
        (Unit::Celsius, Unit::Rankine) => Some(cel_ran(value)),
        (Unit::Fahrenheit, Unit::Kelvin) => Some(fah_kel(value)),
        (Unit::Fahrenheit, Unit::Celsius) => Some(fah_cel(value)),
        (Unit::Fahrenheit, Unit::Rankine) => Some(fah_ran(value)),
        (Unit::Rankine, Unit::Kelvin) => Some(ran_kel(value)),
        (Unit::Rankine, Unit::Celsius) => Some(ran_cel(value)),
        (Unit::Rankine, Unit::Fahrenheit) => Some(ran_fah(value)),
        (Unit::Liters, Unit::Tablespoons) => Some(lit_tab(value)),
        (Unit::Liters, Unit::CubicInches) => Some(lit_ci(value)),
        (Unit::Liters, Unit::Cups) => Some(lit_cups(value)),
        (Unit::Liters, Unit::CubicFeet) => Some(lit_cf(value)),
        (Unit::Liters, Unit::Gallons) => Some(lit_gal(value)),
        (Unit::Tablespoons, Unit::Liters) => Some(tab_lit(value)),
        (Unit::Tablespoons, Unit::CubicInches) => Some(tab_ci(value)),
        (Unit::Tablespoons, Unit::Cups) => Some(tab_cups(value)),
        (Unit::Tablespoons, Unit::CubicFeet) => Some(tab_cf(value)),
        (Unit::Tablespoons, Unit::Gallons) => Some(tab_gal(value)),
        (Unit::CubicInches, Unit::Liters) => Some(ci_lit(value)),
        (Unit::CubicInches, Unit::Tablespoons) => Some(ci_tab(value)),
        (Unit::CubicInches, Unit::Cups) => Some(ci_cups(value)),
        (Unit::CubicInches, Unit::CubicFeet) => Some(ci_cf(value)),
        (Unit::CubicInches, Unit::Gallons) => Some(ci_gal(value)),
        (Unit::Cups, Unit::Liters) => Some(cups_lit(value)),
        (Unit::Cups, Unit::CubicInches) => Some(cups_ci(value)),
        (Unit::Cups, Unit::Tablespoons) => Some(cups_tab(value)),
        (Unit::Cups, Unit::CubicFeet) => Some(cups_cf(value)),
        (Unit::Cups, Unit::Gallons) => Some(cups_gal(value)),
        (Unit::CubicFeet, Unit::Liters) => Some(cf_lit(value)),
        (Unit::CubicFeet, Unit::CubicInches) => Some(cf_ci(value)),
        (Unit::CubicFeet, Unit::Tablespoons) => Some(cf_tab(value)),
        (Unit::CubicFeet, Unit::Cups) => Some(cf_cups(value)),
        (Unit::CubicFeet, Unit::Gallons) => Some(cf_gal(value)),
        (Unit::Gallons, Unit::Liters) => Some(gal_lit(value)),
        (Unit::Gallons, Unit::CubicInches) => Some(gal_ci(value)),
        (Unit::Gallons, Unit::Tablespoons) => Some(gal_tab(value)),
        (Unit::Gallons, Unit::CubicFeet) => Some(gal_cf(value)),
        (Unit::Gallons, Unit::Cups) => Some(gal_cups(value)),
        _ => None,
    }
}

/// Applying the affine map `(a2, b2, d2)` after `(a1, b1, d1)` recovers the
/// input exactly when the two maps are mutually inverse.
proof fn round_trip_affine_exact(a1: int, b1: int, d1: int, a2: int, b2: int, d2: int, n: int, d: int)
    requires
        a2 * a1 == d2 * d1,
        a2 * b1 + b2 * d1 == 0,
    ensures
        (a2 * (a1 * n + b1 * d) + b2 * (d1 * d)) * d == n * (d2 * (d1 * d)),
{
    let n1 = a1 * n + b1 * d;
    assert(a2 * n1 == (a2 * a1) * n + (a2 * b1) * d) by (nonlinear_arith)
        requires
            n1 == a1 * n + b1 * d,
    ;
    assert(b2 * (d1 * d) == (b2 * d1) * d) by (nonlinear_arith);
    assert((a2 * b1) * d + (b2 * d1) * d == (a2 * b1 + b2 * d1) * d) by (nonlinear_arith);
    assert(a2 * n1 + b2 * (d1 * d) == (d2 * d1) * n + 0 * d);
    assert(((d2 * d1) * n) * d == n * (d2 * (d1 * d))) by (nonlinear_arith);
}

/// Scaling by `p1/q1` and then by `p2/q2` lands within 1/10 of the input
/// when the product of the two factors is within 1/120 of 1 and the input
/// has magnitude at most 12.
proof fn round_trip_scale_close(p1: int, q1: int, p2: int, q2: int, n: int, d: int)
    requires
        q1 > 0,
        q2 > 0,
        d > 0,
        -12 * d <= n <= 12 * d,
        120 * (p1 * p2 - q1 * q2) <= q1 * q2,
        120 * (q1 * q2 - p1 * p2) <= q1 * q2,
    ensures
        close_val(n, d, p2 * (p1 * n), q2 * (q1 * d), 1, 10),
{
    let n2 = p2 * (p1 * n);
    let d2 = q2 * (q1 * d);
    assert(d2 > 0 && 10 * (n * d2 - n2 * d) <= d * d2 && 10 * (n2 * d - n * d2) <= d * d2)
        by (nonlinear_arith)
        requires
            q1 > 0,
            q2 > 0,
            d > 0,
            -12 * d <= n <= 12 * d,
            120 * (p1 * p2 - q1 * q2) <= q1 * q2,
            120 * (q1 * q2 - p1 * p2) <= q1 * q2,
            n2 == p2 * (p1 * n),
            d2 == q2 * (q1 * d),
    ;
    assert(abs(n * d2 - n2 * d) * 10 <= 1 * (d * d2));
}

/// Round-trip exactness within the temperature family: converting a value
/// to another temperature unit and back recovers it exactly, for every
/// rational value `n / d`.
pub proof fn lemma_round_trip_temperature(a: Unit, b: Unit, n: int, d: int)
    requires
        a.family() == Family::Temperature,
        b.family() == Family::Temperature,
        a != b,
        d > 0,
    ensures
        ({
            let n1 = coeffs(a, b).0 * n + coeffs(a, b).1 * d;
            let d1 = coeffs(a, b).2 * d;
            let n2 = coeffs(b, a).0 * n1 + coeffs(b, a).1 * d1;
            let d2 = coeffs(b, a).2 * d1;
            n2 * d == n * d2
        }),
{
    match (a, b) {
        (Unit::Kelvin, Unit::Celsius) => round_trip_affine_exact(
            100, -27315, 100, 100, 27315, 100, n, d),
        (Unit::Kelvin, Unit::Fahrenheit) => round_trip_affine_exact(
            180, -45967, 100, 100, 45967, 180, n, d),
        (Unit::Kelvin, Unit::Rankine) => round_trip_affine_exact(9, 0, 5, 5, 0, 9, n, d),
        (Unit::Celsius, Unit::Kelvin) => round_trip_affine_exact(
            100, 27315, 100, 100, -27315, 100, n, d),
        (Unit::Celsius, Unit::Fahrenheit) => round_trip_affine_exact(9, 160, 5, 5, -160, 9, n, d),
        (Unit::Celsius, Unit::Rankine) => round_trip_affine_exact(
            180, 49167, 100, 100, -49167, 180, n, d),
        (Unit::Fahrenheit, Unit::Kelvin) => round_trip_affine_exact(
            100, 45967, 180, 180, -45967, 100, n, d),
        (Unit::Fahrenheit, Unit::Celsius) => round_trip_affine_exact(5, -160, 9, 9, 160, 5, n, d),
        (Unit::Fahrenheit, Unit::Rankine) => round_trip_affine_exact(
            100, 45967, 100, 100, -45967, 100, n, d),
        (Unit::Rankine, Unit::Kelvin) => round_trip_affine_exact(5, 0, 9, 9, 0, 5, n, d),
        (Unit::Rankine, Unit::Celsius) => round_trip_affine_exact(
            100, -49167, 180, 180, 49167, 100, n, d),
        (Unit::Rankine, Unit::Fahrenheit) => round_trip_affine_exact(
            100, -45967, 100, 100, 45967, 100, n, d),
        _ => {},
    }
}

/// Round-trip stability: converting a value `n / d` of magnitude at most 12
/// to another unit of the same family and back lands within the round-trip
/// tolerance (0.1) of the original value.
///
/// The magnitude bound is needed: the volume constants are not mutual
/// inverses, so the round-trip error grows linearly with the value.
pub proof fn lemma_round_trip(a: Unit, b: Unit, n: int, d: int)
    requires
        a.family() == b.family(),
        a != b,
        d > 0,
        -12 * d <= n <= 12 * d,
    ensures
        ({
            let n1 = coeffs(a, b).0 * n + coeffs(a, b).1 * d;
            let d1 = coeffs(a, b).2 * d;
            let n2 = coeffs(b, a).0 * n1 + coeffs(b, a).1 * d1;
            let d2 = coeffs(b, a).2 * d1;
            close_val(n, d, n2, d2, 1, 10)
        }),
{
    if a.family() == Family::Temperature {
        lemma_round_trip_temperature(a, b, n, d);
        let d1 = coeffs(a, b).2 * d;
        let d2 = coeffs(b, a).2 * d1;
        assert(d1 > 0 && d2 > 0 && d * d2 >= 0) by (nonlinear_arith)
            requires
                d > 0,
                coeffs(a, b).2 > 0,
                coeffs(b, a).2 > 0,
                d1 == coeffs(a, b).2 * d,
                d2 == coeffs(b, a).2 * d1,
        ;
    } else {
        match (a, b) {
            (Unit::Liters, Unit::Tablespoons) => round_trip_scale_close(
                67628, 1000, 147, 10000, n, d),
            (Unit::Liters, Unit::CubicInches) => round_trip_scale_close(
                61023, 1000, 163, 10000, n, d),
            (Unit::Liters, Unit::Cups) => round_trip_scale_close(
                4226, 1000, 236588, 1000000, n, d),
            (Unit::Liters, Unit::CubicFeet) => round_trip_scale_close(
                353, 10000, 283168, 10000, n, d),
            (Unit::Liters, Unit::Gallons) => round_trip_scale_close(
                2641, 10000, 3785, 1000, n, d),
            (Unit::Tablespoons, Unit::Liters) => round_trip_scale_close(
                147, 10000, 67628, 1000, n, d),
            (Unit::Tablespoons, Unit::CubicInches) => round_trip_scale_close(
                902, 1000, 110823, 100000, n, d),
            (Unit::Tablespoons, Unit::Cups) => round_trip_scale_close(62, 1000, 16, 1, n, d),
            (Unit::Tablespoons, Unit::CubicFeet) => round_trip_scale_close(
                52219, 100000000, 191501, 100, n, d),
            (Unit::Tablespoons, Unit::Gallons) => round_trip_scale_close(
                390625, 100000000, 256, 1, n, d),
            (Unit::CubicInches, Unit::Liters) => round_trip_scale_close(
                163, 10000, 61023, 1000, n, d),
            (Unit::CubicInches, Unit::Tablespoons) => round_trip_scale_close(
                110823, 100000, 902, 1000, n, d),
            (Unit::CubicInches, Unit::Cups) => round_trip_scale_close(
                6926, 100000, 144375, 10000, n, d),
            (Unit::CubicInches, Unit::CubicFeet) => round_trip_scale_close(
                578704, 1000000000, 1728, 1, n, d),
            (Unit::CubicInches, Unit::Gallons) => round_trip_scale_close(
                4329, 1000000, 231, 1, n, d),
            (Unit::Cups, Unit::Liters) => round_trip_scale_close(
                236588, 1000000, 4226, 1000, n, d),
            (Unit::Cups, Unit::CubicInches) => round_trip_scale_close(
                144375, 10000, 6926, 100000, n, d),
            (Unit::Cups, Unit::Tablespoons) => round_trip_scale_close(16, 1, 62, 1000, n, d),
            (Unit::Cups, Unit::CubicFeet) => round_trip_scale_close(
                835, 100000, 119688, 1000, n, d),
            (Unit::Cups, Unit::Gallons) => round_trip_scale_close(625, 10000, 16, 1, n, d),
            (Unit::CubicFeet, Unit::Liters) => round_trip_scale_close(
                283168, 10000, 353, 10000, n, d),
            (Unit::CubicFeet, Unit::CubicInches) => round_trip_scale_close(
                1728, 1, 578704, 1000000000, n, d),
            (Unit::CubicFeet, Unit::Tablespoons) => round_trip_scale_close(
                191501, 100, 52219, 100000000, n, d),
            (Unit::CubicFeet, Unit::Cups) => round_trip_scale_close(
                119688, 1000, 835, 100000, n, d),
            (Unit::CubicFeet, Unit::Gallons) => round_trip_scale_close(
                748052, 100000, 133, 1000, n, d),
            (Unit::Gallons, Unit::Liters) => round_trip_scale_close(
                3785, 1000, 2641, 10000, n, d),
            (Unit::Gallons, Unit::CubicInches) => round_trip_scale_close(
                231, 1, 4329, 1000000, n, d),
            (Unit::Gallons, Unit::Tablespoons) => round_trip_scale_close(
                256, 1, 390625, 100000000, n, d),
            (Unit::Gallons, Unit::CubicFeet) => round_trip_scale_close(
                133, 1000, 748052, 100000, n, d),
            (Unit::Gallons, Unit::Cups) => round_trip_scale_close(16, 1, 625, 10000, n, d),
            _ => {},
        }
    }
}

} // verus!
