//! The verdict evaluator: parses both unit names and both numeric strings,
//! converts, compares within the single-conversion tolerance, and yields
//! one of the three verdicts. Every input, however malformed, yields a
//! verdict; nothing panics.

use vstd::prelude::*;
use vstd::math::abs;
use crate::number::number_spec;
use crate::number::parse_number;
use crate::rat::close;
use crate::rat::close_val;
use crate::rat::single_conversion_tolerance;
use crate::rat::Rat;
use crate::table::coeffs;
use crate::table::convert;
use crate::units::parse_unit_spec;
use crate::units::Unit;

verus! {

/// The three-way grading outcome for a submitted answer.
#[derive(Clone, Copy, PartialEq, Eq, Structural, Debug)]
pub enum Verdict {
    /// The answer is within tolerance of the converted control value.
    Correct,
    /// Everything parsed and converted, but the answer is off.
    Incorrect,
    /// A unit or number failed to parse, or the units belong to
    /// different families.
    Invalid,
}

/// The exact value `convert(from, to, cn/cd)` as a numerator-denominator
/// pair, for units of one family.
pub open spec fn expected_pair(from: Unit, to: Unit, cn: int, cd: int) -> (int, int) {
    if from == to {
        (cn, cd)
    } else {
        (coeffs(from, to).0 * cn + coeffs(from, to).1 * cd, coeffs(from, to).2 * cd)
    }
}

/// The verdict for four raw strings: input unit, target unit, control
/// value, submitted answer. `Invalid` where a unit or a number does not
/// parse or the families differ; otherwise `Correct` exactly when the
/// answer is within 0.005 of the converted control value.
pub open spec fn evaluate_spec(ui: Seq<char>, ut: Seq<char>, cs: Seq<char>, ans: Seq<char>) -> Verdict {
    match (parse_unit_spec(ui), parse_unit_spec(ut), number_spec(cs), number_spec(ans)) {
        (Some(fu), Some(tu), Some(c), Some(a)) => {
            if fu.family() != tu.family() {
                Verdict::Invalid
            } else {
                let e = expected_pair(fu, tu, c.0, c.1);
                if close_val(e.0, e.1, a.0, a.1, 5, 1000) {
                    Verdict::Correct
                } else {
                    Verdict::Incorrect
                }
            }
        },
        _ => Verdict::Invalid,
    }
}

/// The products the comparator forms stay inside `i128` for an expected
/// value that came out of the conversion table and an answer that came out
/// of the number parser.
proof fn lemma_comparator_fits(e: Rat, a: Rat)
    requires
        e.wf(),
        a.wf(),
        abs(e.num as int) <= 100_000_000_000_000_000_000_000,
        e.den <= 1_000_000_000_000_000_000,
        abs(a.num as int) <= 100_000_000_000_000_000,
        a.den <= 1_000_000_000,
    ensures
        (abs(e.num as int) * a.den + abs(a.num as int) * e.den) * 1000 <= i128::MAX,
        5 * e.den * a.den <= i128::MAX,
{
    assert(abs(e.num as int) * a.den <= 100_000_000_000_000_000_000_000 * 1_000_000_000)
        by (nonlinear_arith)
        requires
            0 <= abs(e.num as int) <= 100_000_000_000_000_000_000_000,
            0 < a.den <= 1_000_000_000,
    ;
    assert(abs(a.num as int) * e.den <= 100_000_000_000_000_000 * 1_000_000_000_000_000_000)
        by (nonlinear_arith)
        requires
            0 <= abs(a.num as int) <= 100_000_000_000_000_000,
            0 < e.den <= 1_000_000_000_000_000_000,
    ;
    assert(5 * e.den * a.den <= 5 * 1_000_000_000_000_000_000 * 1_000_000_000)
        by (nonlinear_arith)
        requires
            0 < e.den <= 1_000_000_000_000_000_000,
            0 < a.den <= 1_000_000_000,
    ;
}

/// Grades a submitted answer: parses the two unit names and the two
/// numeric strings, converts the control value, and compares it to the
/// answer within the single-conversion tolerance.
pub fn evaluate(uom_in: &str, uom_target: &str, control: &str, answer: &str) -> (r: Verdict)
    ensures
        r == evaluate_spec(uom_in@, uom_target@, control@, answer@),
{
    let from = match Unit::from_str(uom_in) {
        Ok(u) => u,
        Err(_) => {
            return Verdict::Invalid;
        },
    };
    let to = match Unit::from_str(uom_target) {
        Ok(u) => u,
        Err(_) => {
            return Verdict::Invalid;
        },
    };
    let c = match parse_number(control) {
        Some(v) => v,
        None => {
            return Verdict::Invalid;
        },
    };
    let a = match parse_number(answer) {
        Some(v) => v,
        None => {
            return Verdict::Invalid;
        },
    };
    let expected = match convert(from, to, c) {
        Some(w) => w,
        None => {
            return Verdict::Invalid;
        },
    };
    proof {
        assert(0 < coeffs(from, to).0 <= 748052 && -49167 <= coeffs(from, to).1 <= 49167
            && 0 < coeffs(from, to).2 <= 1_000_000_000);
        if from != to {
            assert(abs(expected.num as int) <= 100_000_000_000_000_000_000_000
                && 0 < expected.den <= 1_000_000_000_000_000_000) by (nonlinear_arith)
                requires
                    expected.num == coeffs(from, to).0 * c.num + coeffs(from, to).1 * c.den,
                    expected.den == coeffs(from, to).2 * c.den,
                    0 < coeffs(from, to).0 <= 748052,
                    -49167 <= coeffs(from, to).1 <= 49167,
                    0 < coeffs(from, to).2 <= 1_000_000_000,
                    -100_000_000_000_000_000 <= c.num <= 100_000_000_000_000_000,
                    0 < c.den <= 1_000_000_000,
            ;
        }
        lemma_comparator_fits(expected, a);
    }
    let tol = single_conversion_tolerance();
    if close(expected, a, tol) {
        Verdict::Correct
    } else {
        Verdict::Incorrect
    }
}

} // verus!
