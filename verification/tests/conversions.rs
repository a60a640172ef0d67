use float_cmp::ApproxEq;
use rustoleum::{convert, Rat, Unit, UnitParseError};
use rustoleum::{cel_fah, cel_kel, cel_ran, fah_cel, fah_kel, fah_ran};
use rustoleum::{kel_cel, kel_fah, kel_ran, ran_cel, ran_fah, ran_kel};
use rustoleum::{cf_ci, cf_cups, cf_gal, cf_lit, cf_tab};
use rustoleum::{ci_cf, ci_cups, ci_gal, ci_lit, ci_tab};
use rustoleum::{cups_cf, cups_ci, cups_gal, cups_lit, cups_tab};
use rustoleum::{gal_cf, gal_ci, gal_cups, gal_lit, gal_tab};
use rustoleum::{lit_cf, lit_ci, lit_cups, lit_gal, lit_tab};
use rustoleum::{tab_cf, tab_ci, tab_cups, tab_gal, tab_lit};

const TOLERANCE_EPSILON: f64 = 0.005;
const TOLERANCE_ULPS: i64 = 2;
const ROUNDTRIP_TOLERANCE_EPSILON: f64 = 0.1;
const ROUNDTRIP_TOLERANCE_ULPS: i64 = 2;

fn f64_of(r: Rat) -> f64 {
    r.num as f64 / r.den as f64
}

#[test]
fn it_works() {
    assert_eq!(2 + 2, 4);
}

#[test]
fn test_approx_eq() {
    assert!((9.0_f64 / 11.0).approx_eq(0.8182, (TOLERANCE_EPSILON, TOLERANCE_ULPS)));
}

#[test]
fn test_fah_cel() {
    let c = 21.11;
    let res = f64_of(fah_cel(Rat { num: 70, den: 1 }));
    assert!(res.approx_eq(c, (TOLERANCE_EPSILON, TOLERANCE_ULPS)));
}

#[test]
fn test_fah_kel() {
    let k = 294.26;
    let res = f64_of(fah_kel(Rat { num: 70, den: 1 }));
    assert!(res.approx_eq(k, (TOLERANCE_EPSILON, TOLERANCE_ULPS)));
}

#[test]
fn test_fah_ran() {
    let r = 529.67;
    let res = f64_of(fah_ran(Rat { num: 70, den: 1 }));
    assert!(res.approx_eq(r, (TOLERANCE_EPSILON, TOLERANCE_ULPS)));
}

#[test]
fn test_cel_kel() {
    let k = 343.15;
    let res = f64_of(cel_kel(Rat { num: 70, den: 1 }));
    assert!(res.approx_eq(k, (TOLERANCE_EPSILON, TOLERANCE_ULPS)));
}

#[test]
fn test_cel_fah() {
    let f = 158.0;
    let res = f64_of(cel_fah(Rat { num: 70, den: 1 }));
    assert!(res.approx_eq(f, (TOLERANCE_EPSILON, TOLERANCE_ULPS)));
}

#[test]
fn test_cel_ran() {
    let r = 617.67;
    let res = f64_of(cel_ran(Rat { num: 70, den: 1 }));
    assert!(res.approx_eq(r, (TOLERANCE_EPSILON, TOLERANCE_ULPS)));
}

#[test]
fn test_kel_cel() {
    let c = -203.15;
    let res = f64_of(kel_cel(Rat { num: 70, den: 1 }));
    assert!(res.approx_eq(c, (TOLERANCE_EPSILON, TOLERANCE_ULPS)));
}

#[test]
fn test_kel_fah() {
    let f = -333.67;
    let res = f64_of(kel_fah(Rat { num: 70, den: 1 }));
    assert!(res.approx_eq(f, (TOLERANCE_EPSILON, TOLERANCE_ULPS)));
}

#[test]
fn test_kel_ran() {
    let r = 126.0;
    let res = f64_of(kel_ran(Rat { num: 70, den: 1 }));
    assert!(res.approx_eq(r, (TOLERANCE_EPSILON, TOLERANCE_ULPS)));
}

#[test]
fn test_lit_tab() {
    let t = 67.628;
    let res = f64_of(lit_tab(Rat { num: 1, den: 1 }));
    assert!(res.approx_eq(t, (TOLERANCE_EPSILON, TOLERANCE_ULPS)));
}

#[test]
fn test_lit_ci() {
    let ci = 61.023;
    let res = f64_of(lit_ci(Rat { num: 1, den: 1 }));
    assert!(res.approx_eq(ci, (TOLERANCE_EPSILON, TOLERANCE_ULPS)));
}

#[test]
fn test_lit_cups() {
    let cups = 4.226;
    let res = f64_of(lit_cups(Rat { num: 1, den: 1 }));
    assert!(res.approx_eq(cups, (TOLERANCE_EPSILON, TOLERANCE_ULPS)));
}

#[test]
fn test_lit_cf() {
    let cf = 0.0353;
    let res = f64_of(lit_cf(Rat { num: 1, den: 1 }));
    assert!(res.approx_eq(cf, (TOLERANCE_EPSILON, TOLERANCE_ULPS)));
}

#[test]
fn test_lit_gal() {
    let gal = 0.2641;
    let res = f64_of(lit_gal(Rat { num: 1, den: 1 }));
    assert!(res.approx_eq(gal, (TOLERANCE_EPSILON, TOLERANCE_ULPS)));
}

#[test]
fn test_tab_lit() {
    let l = 1.47;
    let res = f64_of(tab_lit(Rat { num: 100, den: 1 }));
    assert!(res.approx_eq(l, (TOLERANCE_EPSILON, TOLERANCE_ULPS)));
}

#[test]
fn test_tab_ci() {
    let ci = 9.02;
    let res = f64_of(tab_ci(Rat { num: 10, den: 1 }));
    assert!(res.approx_eq(ci, (TOLERANCE_EPSILON, TOLERANCE_ULPS)));
}

#[test]
fn test_tab_cups() {
    let cups = 0.992;
    let res = f64_of(tab_cups(Rat { num: 16, den: 1 }));
    assert!(res.approx_eq(cups, (TOLERANCE_EPSILON, TOLERANCE_ULPS)));
}

#[test]
fn test_tab_cf() {
    let cf = 0.52219;
    let res = f64_of(tab_cf(Rat { num: 1000, den: 1 }));
    assert!(res.approx_eq(cf, (TOLERANCE_EPSILON, TOLERANCE_ULPS)));
}

#[test]
fn test_tab_gal() {
    let gal = 1.0;
    let res = f64_of(tab_gal(Rat { num: 256, den: 1 }));
    assert!(res.approx_eq(gal, (TOLERANCE_EPSILON, TOLERANCE_ULPS)));
}

#[test]
fn test_ci_lit() {
    let l = 1.63;
    let res = f64_of(ci_lit(Rat { num: 100, den: 1 }));
    assert!(res.approx_eq(l, (TOLERANCE_EPSILON, TOLERANCE_ULPS)));
}

#[test]
fn test_ci_tab() {
    let t = 11.0823;
    let res = f64_of(ci_tab(Rat { num: 10, den: 1 }));
    assert!(res.approx_eq(t, (TOLERANCE_EPSILON, TOLERANCE_ULPS)));
}

#[test]
fn test_ci_cups() {
    let cups = 6.926;
    let res = f64_of(ci_cups(Rat { num: 100, den: 1 }));
    assert!(res.approx_eq(cups, (TOLERANCE_EPSILON, TOLERANCE_ULPS)));
}

#[test]
fn test_ci_cf() {
    let cf = 1.0;
    let res = f64_of(ci_cf(Rat { num: 1728, den: 1 }));
    assert!(res.approx_eq(cf, (TOLERANCE_EPSILON, TOLERANCE_ULPS)));
}

#[test]
fn test_ci_gal() {
    let gal = 1.0;
    let res = f64_of(ci_gal(Rat { num: 231, den: 1 }));
    assert!(res.approx_eq(gal, (TOLERANCE_EPSILON, TOLERANCE_ULPS)));
}

#[test]
fn test_cups_lit() {
    let l = 0.946352;
    let res = f64_of(cups_lit(Rat { num: 4, den: 1 }));
    assert!(res.approx_eq(l, (TOLERANCE_EPSILON, TOLERANCE_ULPS)));
}

#[test]
fn test_cups_ci() {
    let ci = 14.4375;
    let res = f64_of(cups_ci(Rat { num: 1, den: 1 }));
    assert!(res.approx_eq(ci, (TOLERANCE_EPSILON, TOLERANCE_ULPS)));
}

#[test]
fn test_cups_tab() {
    let t = 16.0;
    let res = f64_of(cups_tab(Rat { num: 1, den: 1 }));
    assert!(res.approx_eq(t, (TOLERANCE_EPSILON, TOLERANCE_ULPS)));
}

#[test]
fn test_cups_cf() {
    let cf = 0.835;
    let res = f64_of(cups_cf(Rat { num: 100, den: 1 }));
    assert!(res.approx_eq(cf, (TOLERANCE_EPSILON, TOLERANCE_ULPS)));
}

#[test]
fn test_cups_gal() {
    let gal = 1.0;
    let res = f64_of(cups_gal(Rat { num: 16, den: 1 }));
    assert!(res.approx_eq(gal, (TOLERANCE_EPSILON, TOLERANCE_ULPS)));
}

#[test]
fn test_cf_lit() {
    let l = 28.3168;
    let res = f64_of(cf_lit(Rat { num: 1, den: 1 }));
    assert!(res.approx_eq(l, (TOLERANCE_EPSILON, TOLERANCE_ULPS)));
}

#[test]
fn test_cf_ci() {
    let ci = 1728.0;
    let res = f64_of(cf_ci(Rat { num: 1, den: 1 }));
    assert!(res.approx_eq(ci, (TOLERANCE_EPSILON, TOLERANCE_ULPS)));
}

#[test]
fn test_cf_tab() {
    let t = 1915.01;
    let res = f64_of(cf_tab(Rat { num: 1, den: 1 }));
    assert!(res.approx_eq(t, (TOLERANCE_EPSILON, TOLERANCE_ULPS)));
}

#[test]
fn test_cf_cups() {
    let cups = 119.688;
    let res = f64_of(cf_cups(Rat { num: 1, den: 1 }));
    assert!(res.approx_eq(cups, (TOLERANCE_EPSILON, TOLERANCE_ULPS)));
}

#[test]
fn test_cf_gal() {
    let gal = 7.48052;
    let res = f64_of(cf_gal(Rat { num: 1, den: 1 }));
    assert!(res.approx_eq(gal, (TOLERANCE_EPSILON, TOLERANCE_ULPS)));
}

#[test]
fn test_gal_lit() {
    let l = 3.785;
    let res = f64_of(gal_lit(Rat { num: 1, den: 1 }));
    assert!(res.approx_eq(l, (TOLERANCE_EPSILON, TOLERANCE_ULPS)));
}

#[test]
fn test_gal_ci() {
    let ci = 231.0;
    let res = f64_of(gal_ci(Rat { num: 1, den: 1 }));
    assert!(res.approx_eq(ci, (TOLERANCE_EPSILON, TOLERANCE_ULPS)));
}

#[test]
fn test_gal_tab() {
    let t = 256.0;
    let res = f64_of(gal_tab(Rat { num: 1, den: 1 }));
    assert!(res.approx_eq(t, (TOLERANCE_EPSILON, TOLERANCE_ULPS)));
}

#[test]
fn test_gal_cf() {
    let cf = 0.133;
    let res = f64_of(gal_cf(Rat { num: 1, den: 1 }));
    assert!(res.approx_eq(cf, (TOLERANCE_EPSILON, TOLERANCE_ULPS)));
}

#[test]
fn test_gal_cups() {
    let cups = 16.0;
    let res = f64_of(gal_cups(Rat { num: 1, den: 1 }));
    assert!(res.approx_eq(cups, (TOLERANCE_EPSILON, TOLERANCE_ULPS)));
}

#[test]
fn test_roundtrip_lit_tab() {
    let original = Rat { num: 25, den: 10 };
    let converted = lit_tab(original);
    let back = tab_lit(converted);
    assert!(f64_of(original).approx_eq(
        f64_of(back),
        (ROUNDTRIP_TOLERANCE_EPSILON, ROUNDTRIP_TOLERANCE_ULPS)
    ));
}

#[test]
fn test_roundtrip_gal_cf() {
    let original = Rat { num: 5, den: 1 };
    let converted = gal_cf(original);
    let back = cf_gal(converted);
    assert!(f64_of(original).approx_eq(
        f64_of(back),
        (ROUNDTRIP_TOLERANCE_EPSILON, ROUNDTRIP_TOLERANCE_ULPS)
    ));
}

#[test]
fn test_roundtrip_cups_ci() {
    let original = Rat { num: 3, den: 1 };
    let converted = cups_ci(original);
    let back = ci_cups(converted);
    assert!(f64_of(original).approx_eq(
        f64_of(back),
        (ROUNDTRIP_TOLERANCE_EPSILON, ROUNDTRIP_TOLERANCE_ULPS)
    ));
}

#[test]
fn test_enum_convert_celsius_kelvin() {
    let result = convert(Unit::Celsius, Unit::Kelvin, Rat { num: 70, den: 1 });
    assert!(result.is_some());
    assert!(f64_of(result.unwrap()).approx_eq(343.15, (TOLERANCE_EPSILON, TOLERANCE_ULPS)));
}

#[test]
fn test_enum_convert_fahrenheit_celsius() {
    let result = convert(Unit::Fahrenheit, Unit::Celsius, Rat { num: 70, den: 1 });
    assert!(result.is_some());
    assert!(f64_of(result.unwrap()).approx_eq(21.11, (TOLERANCE_EPSILON, TOLERANCE_ULPS)));
}

#[test]
fn test_enum_convert_liters_gallons() {
    let result = convert(Unit::Liters, Unit::Gallons, Rat { num: 1, den: 1 });
    assert!(result.is_some());
    assert!(f64_of(result.unwrap()).approx_eq(0.2641, (TOLERANCE_EPSILON, TOLERANCE_ULPS)));
}

#[test]
fn test_enum_convert_cups_tablespoons() {
    let result = convert(Unit::Cups, Unit::Tablespoons, Rat { num: 1, den: 1 });
    assert!(result.is_some());
    assert!(f64_of(result.unwrap()).approx_eq(16.0, (TOLERANCE_EPSILON, TOLERANCE_ULPS)));
}

#[test]
fn test_enum_convert_same_unit() {
    let result = convert(Unit::Celsius, Unit::Celsius, Rat { num: 100, den: 1 });
    assert_eq!(result, Some(Rat { num: 100, den: 1 }));
}

#[test]
fn test_enum_convert_invalid() {
    let result = convert(Unit::Celsius, Unit::Liters, Rat { num: 100, den: 1 });
    assert!(result.is_none());
}

#[test]
fn test_unit_from_str() {
    assert_eq!(Unit::from_str("celsius"), Ok(Unit::Celsius));
    assert_eq!(Unit::from_str("CELSIUS"), Ok(Unit::Celsius));
    assert_eq!(Unit::from_str("kelvin"), Ok(Unit::Kelvin));
    assert_eq!(Unit::from_str("liters"), Ok(Unit::Liters));
    assert_eq!(Unit::from_str("cubic-inches"), Ok(Unit::CubicInches));
    assert_eq!(Unit::from_str("cubic-feet"), Ok(Unit::CubicFeet));
    assert_eq!(
        Unit::from_str("invalid"),
        Err(UnitParseError::UnknownUnit("invalid".to_string()))
    );
}
