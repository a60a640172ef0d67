use rustoleum::{close, convert, evaluate, parse_number, Rat, Unit, UnitParseError, Verdict};

fn rat_f64(r: Rat) -> f64 {
    r.num as f64 / r.den as f64
}

fn is_temperature(u: Unit) -> bool {
    matches!(u, Unit::Kelvin | Unit::Celsius | Unit::Fahrenheit | Unit::Rankine)
}

const ALL_UNITS: [Unit; 10] = [
    Unit::Kelvin,
    Unit::Celsius,
    Unit::Fahrenheit,
    Unit::Rankine,
    Unit::Liters,
    Unit::Tablespoons,
    Unit::CubicInches,
    Unit::Cups,
    Unit::CubicFeet,
    Unit::Gallons,
];

#[test]
fn identity_returns_value_unchanged_for_every_unit() {
    let v = Rat { num: -12345, den: 100 };
    for u in ALL_UNITS {
        assert_eq!(convert(u, u, v), Some(v));
    }
}

#[test]
fn conversion_defined_exactly_within_family() {
    let v = Rat { num: 1, den: 1 };
    for a in ALL_UNITS {
        for b in ALL_UNITS {
            let defined = convert(a, b, v).is_some();
            assert_eq!(defined, is_temperature(a) == is_temperature(b));
        }
    }
}

#[test]
fn round_trip_within_tolerance_for_every_pair() {
    // 2.5 as an exact rational; the round trip must land within 0.1 of it.
    let v = Rat { num: 25, den: 10 };
    for a in ALL_UNITS {
        for b in ALL_UNITS {
            if a != b && is_temperature(a) == is_temperature(b) {
                let there = convert(a, b, v).unwrap();
                let back = convert(b, a, there).unwrap();
                let diff = (rat_f64(back) - 2.5).abs();
                assert!(diff <= 0.1, "{:?} -> {:?} -> back drifted {}", a, b, diff);
            }
        }
    }
}

#[test]
fn temperature_round_trip_is_exact() {
    let v = Rat { num: 70, den: 1 };
    let temps = [Unit::Kelvin, Unit::Celsius, Unit::Fahrenheit, Unit::Rankine];
    for a in temps {
        for b in temps {
            if a != b {
                let there = convert(a, b, v).unwrap();
                let back = convert(b, a, there).unwrap();
                // same rational value: cross-multiplied equality
                assert_eq!(back.num * v.den, v.num * back.den);
            }
        }
    }
}

#[test]
fn parser_is_case_insensitive() {
    assert_eq!(Unit::from_str("celsius"), Unit::from_str("CELSIUS"));
    assert_eq!(Unit::from_str("kElViN"), Ok(Unit::Kelvin));
    assert_eq!(Unit::from_str("gallons"), Unit::from_str("GaLLoNS"));
}

#[test]
fn parser_accepts_hyphen_free_aliases() {
    assert_eq!(Unit::from_str("cubic-inches"), Unit::from_str("CUBICINCHES"));
    assert_eq!(Unit::from_str("cubicinches"), Ok(Unit::CubicInches));
    assert_eq!(Unit::from_str("cubic-feet"), Unit::from_str("CUBICFEET"));
    assert_eq!(Unit::from_str("cubicfeet"), Ok(Unit::CubicFeet));
}

#[test]
fn parser_error_carries_input_unchanged() {
    assert_eq!(
        Unit::from_str("Bogus"),
        Err(UnitParseError::UnknownUnit("Bogus".to_string()))
    );
    assert_eq!(
        Unit::from_str(""),
        Err(UnitParseError::UnknownUnit("".to_string()))
    );
}

#[test]
fn parser_error_message_names_the_unit() {
    let err = Unit::from_str("furlongs").unwrap_err();
    assert_eq!(err.message(), "Unknown unit: 'furlongs'");
}

#[test]
fn celsius_to_kelvin_is_exactly_343_15() {
    let result = convert(Unit::Celsius, Unit::Kelvin, Rat { num: 70, den: 1 });
    assert_eq!(result, Some(Rat { num: 34315, den: 100 }));
}

#[test]
fn cross_family_probe_yields_no_result() {
    assert_eq!(convert(Unit::Celsius, Unit::Liters, Rat { num: 100, den: 1 }), None);
}

#[test]
fn evaluate_correct_answer() {
    assert_eq!(evaluate("celsius", "kelvin", "70", "343.15"), Verdict::Correct);
}

#[test]
fn evaluate_incorrect_answer() {
    assert_eq!(evaluate("celsius", "kelvin", "70", "999"), Verdict::Incorrect);
}

#[test]
fn evaluate_unknown_unit_is_invalid() {
    assert_eq!(evaluate("bogus", "kelvin", "70", "343.15"), Verdict::Invalid);
    assert_eq!(evaluate("celsius", "bogus", "70", "343.15"), Verdict::Invalid);
}

#[test]
fn evaluate_cross_family_is_invalid() {
    assert_eq!(evaluate("celsius", "liters", "100", "100"), Verdict::Invalid);
}

#[test]
fn evaluate_malformed_numbers_are_invalid() {
    assert_eq!(evaluate("celsius", "kelvin", "7O", "343.15"), Verdict::Invalid);
    assert_eq!(evaluate("celsius", "kelvin", "70", "34f"), Verdict::Invalid);
    assert_eq!(evaluate("celsius", "kelvin", "", "343.15"), Verdict::Invalid);
}

#[test]
fn evaluate_answer_just_inside_and_outside_tolerance() {
    // expected is exactly 343.15; the tolerance is 0.005
    assert_eq!(evaluate("celsius", "kelvin", "70", "343.154"), Verdict::Correct);
    assert_eq!(evaluate("celsius", "kelvin", "70", "343.156"), Verdict::Incorrect);
}

#[test]
fn evaluate_case_insensitive_units() {
    assert_eq!(evaluate("CELSIUS", "Kelvin", "70", "343.15"), Verdict::Correct);
    assert_eq!(evaluate("Cubic-Feet", "CUBICINCHES", "1", "1728"), Verdict::Correct);
}

#[test]
fn parse_number_plain_integers() {
    assert_eq!(parse_number("70"), Some(Rat { num: 70, den: 1 }));
    assert_eq!(parse_number("+3"), Some(Rat { num: 3, den: 1 }));
    assert_eq!(parse_number("-12"), Some(Rat { num: -12, den: 1 }));
    assert_eq!(parse_number("0"), Some(Rat { num: 0, den: 1 }));
    assert_eq!(parse_number("-0"), Some(Rat { num: 0, den: 1 }));
}

#[test]
fn parse_number_decimals() {
    assert_eq!(parse_number("343.15"), Some(Rat { num: 34315, den: 100 }));
    assert_eq!(parse_number("-2.5"), Some(Rat { num: -25, den: 10 }));
    assert_eq!(parse_number(".5"), Some(Rat { num: 5, den: 10 }));
    assert_eq!(parse_number("5."), Some(Rat { num: 5, den: 1 }));
    // trailing zeros of the fraction are stripped
    assert_eq!(parse_number("2.50"), Some(Rat { num: 25, den: 10 }));
    assert_eq!(parse_number("1.000"), Some(Rat { num: 1, den: 1 }));
}

#[test]
fn parse_number_exponents() {
    assert_eq!(parse_number("1e3"), Some(Rat { num: 1000, den: 1 }));
    assert_eq!(parse_number("1.5e-2"), Some(Rat { num: 15, den: 1000 }));
    assert_eq!(parse_number("2E+1"), Some(Rat { num: 20, den: 1 }));
    assert_eq!(parse_number("0e9999"), Some(Rat { num: 0, den: 1 }));
}

#[test]
fn parse_number_rejects_malformed_input() {
    assert_eq!(parse_number(""), None);
    assert_eq!(parse_number("abc"), None);
    assert_eq!(parse_number("."), None);
    assert_eq!(parse_number("+"), None);
    assert_eq!(parse_number("1.2.3"), None);
    assert_eq!(parse_number("1e"), None);
    assert_eq!(parse_number("1e+"), None);
    assert_eq!(parse_number("--1"), None);
    assert_eq!(parse_number("1 "), None);
    assert_eq!(parse_number("4,5"), None);
}

#[test]
fn parse_number_rejects_values_outside_caps() {
    // more than 9 decimal places that do not strip away
    assert_eq!(parse_number("0.0000000001"), None);
    assert_eq!(parse_number("0.123456789"), Some(Rat { num: 123456789, den: 1_000_000_000 }));
    // magnitude over 10^17
    assert_eq!(parse_number("1e30"), None);
    assert_eq!(
        parse_number("100000000000000000"),
        Some(Rat { num: 100_000_000_000_000_000, den: 1 })
    );
    assert_eq!(parse_number("100000000000000001"), None);
}

#[test]
fn close_decides_the_tolerance_exactly() {
    let eps = Rat { num: 5, den: 1000 };
    let one = Rat { num: 1, den: 1 };
    assert!(close(one, Rat { num: 1004, den: 1000 }, eps));
    assert!(close(one, Rat { num: 1005, den: 1000 }, eps));
    assert!(!close(one, Rat { num: 1006, den: 1000 }, eps));
    assert!(close(Rat { num: 996, den: 1000 }, one, eps));
    assert!(!close(Rat { num: 994, den: 1000 }, one, eps));
}

#[test]
fn fahrenheit_to_celsius_worked_example() {
    let r = convert(Unit::Fahrenheit, Unit::Celsius, Rat { num: 70, den: 1 }).unwrap();
    // (70 - 32) * 5/9 = 190/9 = 21.111...
    assert_eq!(r.num * 9, 190 * r.den);
    assert!((rat_f64(r) - 21.11).abs() <= 0.005);
}

#[test]
fn liters_to_gallons_worked_example() {
    let r = convert(Unit::Liters, Unit::Gallons, Rat { num: 1, den: 1 }).unwrap();
    assert_eq!(r, Rat { num: 2641, den: 10000 });
}
