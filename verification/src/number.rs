//! Parsing of decimal numeric literals into exact rationals.
//!
//! The accepted grammar is that of an ordinary floating-point literal:
//! an optional sign, then digits with at most one decimal point (at least
//! one digit in all), then an optional exponent part `e`/`E` with an
//! optional sign and digits. There is no rounding: `343.15` becomes
//! exactly `34315 / 100`.
//!
//! Three size caps keep the result inside the range the conversion table
//! and the comparator accept, and a literal outside them is rejected:
//! at most 27 mantissa digits, at most 4 exponent digits, and a final
//! value of magnitude at most 10^17 with at most 9 decimal places (after
//! trailing zeros of the fraction are stripped).

use vstd::prelude::*;
use crate::rat::Rat;

verus! {

/// Largest magnitude a parsed numerator may take: 10^17.
pub const NUM_CAP: i128 = 100_000_000_000_000_000;

/// Largest denominator a parsed value may take: 10^9.
pub const DEN_CAP: i128 = 1_000_000_000;

pub open spec fn is_digit(c: char) -> bool {
    '0' <= c && c <= '9'
}

pub open spec fn digit_val(c: char) -> int {
    (c as u32) - 48
}

/// Ten to the power `k` (one for `k <= 0`).
pub open spec fn pow10(k: int) -> int
    decreases k,
{
    if k <= 0 {
        1
    } else {
        10 * pow10(k - 1)
    }
}

/// The first index at or after `i` that does not hold a digit (or the end).
pub open spec fn digits_end(s: Seq<char>, i: int) -> int
    decreases s.len() - i,
{
    if 0 <= i < s.len() && is_digit(s[i]) {
        digits_end(s, i + 1)
    } else {
        i
    }
}

/// The value of the digit run `s[i..j)`.
pub open spec fn digits_val(s: Seq<char>, i: int, j: int) -> int
    decreases j - i,
{
    if i < j {
        10 * digits_val(s, i, j - 1) + digit_val(s[j - 1])
    } else {
        0
    }
}

/// Strips factors of ten from `m` while the decimal shift `t` is negative:
/// the normal form of `m * 10^t` with the fewest decimal places.
pub open spec fn strip_zeros(m: int, t: int) -> (int, int)
    decreases -t,
{
    if t < 0 && m % 10 == 0 {
        strip_zeros(m / 10, t + 1)
    } else {
        (m, t)
    }
}

/// The value `sign * m * 10^t` as a numerator-denominator pair, or `None`
/// where it falls outside the caps (magnitude over 10^17, or more than 9
/// decimal places after stripping trailing zeros).
pub open spec fn finish_spec(neg: bool, m: int, t: int) -> Option<(int, int)> {
    let sgn: int = if neg {
        -1
    } else {
        1
    };
    if m == 0 {
        Some((0, 1))
    } else {
        let p = strip_zeros(m, t);
        let m1 = p.0;
        let t1 = p.1;
        if t1 > 0 {
            if m1 * pow10(t1) > NUM_CAP {
                None
            } else {
                Some((sgn * m1 * pow10(t1), 1))
            }
        } else if t1 < -9 {
            None
        } else if m1 > NUM_CAP {
            None
        } else {
            Some((sgn * m1, pow10(-t1)))
        }
    }
}

/// The exact rational value of a decimal literal, or `None` where the
/// string does not match the grammar or falls outside the caps.
pub open spec fn number_spec(s: Seq<char>) -> Option<(int, int)> {
    let neg = s.len() > 0 && s[0] == '-';
    let i0: int = if s.len() > 0 && (s[0] == '+' || s[0] == '-') {
        1
    } else {
        0
    };
    let i1 = digits_end(s, i0);
    let has_dot = i1 < s.len() && s[i1] == '.';
    let fs: int = if has_dot {
        i1 + 1
    } else {
        i1
    };
    let i2 = digits_end(s, fs);
    let f = i2 - fs;
    if i1 == i0 && i2 == fs {
        None
    } else if (i1 - i0) + f > 27 {
        None
    } else {
        let m = digits_val(s, i0, i1) * pow10(f) + digits_val(s, fs, i2);
        if i2 == s.len() {
            finish_spec(neg, m, -f)
        } else if s[i2] == 'e' || s[i2] == 'E' {
            let eneg = i2 + 1 < s.len() && s[i2 + 1] == '-';
            let j0: int = if i2 + 1 < s.len() && (s[i2 + 1] == '+' || s[i2 + 1] == '-') {
                i2 + 2
            } else {
                i2 + 1
            };
            let j1 = digits_end(s, j0);
            if j1 == j0 || j1 < s.len() || j1 - j0 > 4 {
                None
            } else {
                let e = digits_val(s, j0, j1);
                finish_spec(neg, m, (if eneg { -e } else { e }) - f)
            }
        } else {
            None
        }
    }
}

proof fn lemma_pow10_pos(k: int)
    ensures
        pow10(k) >= 1,
    decreases k,
{
    if k > 0 {
        lemma_pow10_pos(k - 1);
    }
}

proof fn lemma_pow10_mono(a: int, b: int)
    requires
        a <= b,
    ensures
        pow10(a) <= pow10(b),
    decreases b - a,
{
    lemma_pow10_pos(a);
    if a < b {
        lemma_pow10_mono(a, b - 1);
        lemma_pow10_pos(b - 1);
    }
}

proof fn lemma_pow10_27()
    ensures
        pow10(27) == 1_000_000_000_000_000_000_000_000_000,
{
    reveal_with_fuel(pow10, 28);
}

/// Every index of the run `[i, digits_end(s, i))` holds a digit, and the
/// run ends at the first non-digit (or at the end of the string).
proof fn lemma_digits_end(s: Seq<char>, i: int)
    requires
        0 <= i <= s.len(),
    ensures
        i <= digits_end(s, i) <= s.len(),
        forall|j: int| i <= j < digits_end(s, i) ==> is_digit(s[j]),
        digits_end(s, i) < s.len() ==> !is_digit(s[digits_end(s, i)]),
    decreases s.len() - i,
{
    if i < s.len() && is_digit(s[i]) {
        lemma_digits_end(s, i + 1);
    }
}

proof fn lemma_pow10_add(a: int, b: int)
    requires
        a >= 0,
        b >= 0,
    ensures
        pow10(a + b) == pow10(a) * pow10(b),
    decreases b,
{
    if b == 0 {
        assert(pow10(a + 0) == pow10(a) * 1);
    } else {
        lemma_pow10_add(a, b - 1);
        assert(10 * (pow10(a) * pow10(b - 1)) == pow10(a) * (10 * pow10(b - 1)))
            by (nonlinear_arith);
    }
}

/// The first index at or after `from` that holds no digit (or the end).
fn scan_digits(s: &str, from: usize) -> (r: usize)
    requires
        from <= s@.len(),
    ensures
        r as int == digits_end(s@, from as int),
        from <= r && r <= s@.len(),
{
    let n = s.unicode_len();
    let mut i = from;
    loop
        invariant
            from <= i <= n,
            n == s@.len(),
            digits_end(s@, from as int) == digits_end(s@, i as int),
        decreases n - i,
    {
        if i < n {
            let c = s.get_char(i);
            if '0' <= c && c <= '9' {
                proof {
                    assert(digits_end(s@, i as int) == digits_end(s@, i + 1));
                }
                i += 1;
            } else {
                return i;
            }
        } else {
            return i;
        }
    }
}

/// Builds the rational `sign * m * 10^t`, rejecting results outside the
/// caps exactly as [`finish_spec`] says.
#[verifier::loop_isolation(false)]
fn finish(neg: bool, m: i128, t: i128) -> (r: Option<Rat>)
    requires
        0 <= m <= 1_000_000_000_000_000_000_000_000_000,
        -100_000 <= t <= 100_000,
    ensures
        match r {
            Some(v) => finish_spec(neg, m as int, t as int) == Some(
                (v.num as int, v.den as int),
            ) && v.wf() && -NUM_CAP <= v.num <= NUM_CAP && 0 < v.den <= DEN_CAP,
            None => finish_spec(neg, m as int, t as int) is None,
        },
{
    if m == 0 {
        return Some(Rat { num: 0, den: 1 });
    }
    let mut m1 = m;
    let mut t1 = t;
    while t1 < 0 && m1 % 10 == 0
        invariant
            1 <= m1 <= m,
            t <= t1,
            t1 <= 0 || t1 == t,
            -100_000 <= t1 <= 100_000,
            strip_zeros(m as int, t as int) == strip_zeros(m1 as int, t1 as int),
        decreases -t1,
    {
        m1 = m1 / 10;
        t1 = t1 + 1;
    }
    proof {
        assert(strip_zeros(m1 as int, t1 as int) == (m1 as int, t1 as int));
    }
    if t1 > 0 {
        let mut v = m1;
        let mut k = t1;
        if v > NUM_CAP {
            proof {
                lemma_pow10_pos(t1 as int);
                assert(m1 * pow10(t1 as int) >= m1 * 1) by (nonlinear_arith)
                    requires
                        m1 >= 1,
                        pow10(t1 as int) >= 1,
                ;
            }
            return None;
        }
        while k > 0
            invariant
                0 <= k <= t1,
                0 < t1,
                1 <= m1,
                v as int == m1 * pow10((t1 - k) as int),
                1 <= v <= NUM_CAP,
            decreases k,
        {
            let next = v * 10;
            proof {
                let a = pow10((t1 - k) as int);
                let p = pow10((k - 1) as int);
                lemma_pow10_add((t1 - k) as int, k as int);
                assert(pow10(k as int) == 10 * p);
                assert(m1 * (a * (10 * p)) == ((m1 * a) * 10) * p) by (nonlinear_arith);
                assert(m1 * pow10(t1 as int) == (next as int) * p);
            }
            if next > NUM_CAP {
                proof {
                    lemma_pow10_pos((k - 1) as int);
                    assert((next as int) * pow10((k - 1) as int) >= next) by (nonlinear_arith)
                        requires
                            next >= 1,
                            pow10((k - 1) as int) >= 1,
                    ;
                }
                return None;
            }
            proof {
                let a = pow10((t1 - k) as int);
                assert(pow10((t1 - k) as int + 1) == 10 * a);
                assert((m1 * a) * 10 == m1 * (10 * a)) by (nonlinear_arith);
            }
            v = next;
            k -= 1;
        }
        let num = if neg {
            -v
        } else {
            v
        };
        proof {
            if neg {
                assert(-1 * m1 * pow10(t1 as int) == -1 * (m1 * pow10(t1 as int)))
                    by (nonlinear_arith);
            } else {
                assert(1 * m1 * pow10(t1 as int) == m1 * pow10(t1 as int)) by (nonlinear_arith);
            }
        }
        Some(Rat { num, den: 1 })
    } else {
        if t1 < -9 {
            return None;
        }
        if m1 > NUM_CAP {
            return None;
        }
        let mut den: i128 = 1;
        let mut j: i128 = 0;
        proof {
            lemma_pow10_mono(-t1 as int, 9);
            assert(pow10(9) == 1_000_000_000) by {
                reveal_with_fuel(pow10, 10);
            }
        }
        while j < -t1
            invariant
                0 <= j,
                j <= -t1 <= 9,
                den as int == pow10(j as int),
                1 <= den <= DEN_CAP,
            decreases -t1 - j,
        {
            proof {
                lemma_pow10_mono(j + 1, 9);
                assert(pow10(9) == 1_000_000_000) by {
                    reveal_with_fuel(pow10, 10);
                }
            }
            den = den * 10;
            j += 1;
        }
        let num = if neg {
            -m1
        } else {
            m1
        };
        Some(Rat { num, den })
    }
}

/// Parses a decimal literal into an exact rational, as [`number_spec`]
/// says: `None` for a string outside the grammar or the size caps.
pub fn parse_number(s: &str) -> (r: Option<Rat>)
    ensures
        match r {
            Some(v) => number_spec(s@) == Some((v.num as int, v.den as int)) && v.wf()
                && -NUM_CAP <= v.num <= NUM_CAP && 0 < v.den <= DEN_CAP,
            None => number_spec(s@) is None,
        },
{
    let n = s.unicode_len();
    let mut neg = false;
    let mut i0: usize = 0;
    if n > 0 {
        let c = s.get_char(0);
        if c == '-' {
            neg = true;
            i0 = 1;
        } else if c == '+' {
            i0 = 1;
        }
    }
    let i1 = scan_digits(s, i0);
    let mut fs = i1;
    if i1 < n {
        let c = s.get_char(i1);
        if c == '.' {
            fs = i1 + 1;
        }
    }
    let i2 = scan_digits(s, fs);
    if i1 == i0 && i2 == fs {
        return None;
    }
    if (i1 - i0) + (i2 - fs) > 27 {
        return None;
    }
    proof {
        lemma_digits_end(s@, i0 as int);
        lemma_digits_end(s@, fs as int);
        lemma_pow10_mono(0, 27);
        assert(pow10(27) == 1_000_000_000_000_000_000_000_000_000) by {
            reveal_with_fuel(pow10, 28);
        }
    }
    // Mantissa: the integer digits, then the fraction digits.
    let mut m: i128 = 0;
    let mut i = i0;
    while i < i1
        invariant
            i0 <= i <= i1,
            i1 as int == digits_end(s@, i0 as int),
            i1 <= s@.len(),
            (i1 - i0) as int <= 27,
            forall|j: int| i0 <= j < i1 ==> is_digit(s@[j]),
            m as int == digits_val(s@, i0 as int, i as int),
            0 <= m < pow10((i - i0) as int),
            pow10((i - i0) as int) <= pow10(27),
            pow10(27) == 1_000_000_000_000_000_000_000_000_000,
        decreases i1 - i,
    {
        let c = s.get_char(i);
        let d = (c as u32) - 48;
        proof {
            lemma_pow10_mono((i - i0) as int + 1, 27);
        }
        m = 10 * m + (d as i128);
        i += 1;
    }
    proof {
        assert(pow10(0) == 1);
        assert(digits_val(s@, fs as int, fs as int) == 0);
        assert(m as int == digits_val(s@, i0 as int, i1 as int));
        assert(m as int == digits_val(s@, i0 as int, i1 as int) * pow10(0) + digits_val(
            s@,
            fs as int,
            fs as int,
        ));
    }
    let mut i = fs;
    while i < i2
        invariant
            fs <= i <= i2,
            i2 as int == digits_end(s@, fs as int),
            i2 <= s@.len(),
            i0 <= i1 <= fs,
            ((i1 - i0) + (i2 - fs)) as int <= 27,
            forall|j: int| fs <= j < i2 ==> is_digit(s@[j]),
            m as int == digits_val(s@, i0 as int, i1 as int) * pow10((i - fs) as int)
                + digits_val(s@, fs as int, i as int),
            0 <= m < pow10(((i1 - i0) + (i - fs)) as int),
            pow10(((i1 - i0) + (i - fs)) as int) <= pow10(27),
            pow10(27) == 1_000_000_000_000_000_000_000_000_000,
        decreases i2 - i,
    {
        let c = s.get_char(i);
        let d = (c as u32) - 48;
        proof {
            lemma_pow10_mono(((i1 - i0) + (i - fs)) as int + 1, 27);
            let iv = digits_val(s@, i0 as int, i1 as int);
            let p = pow10((i - fs) as int);
            assert(10 * (iv * p) == iv * (10 * p)) by (nonlinear_arith);
        }
        m = 10 * m + (d as i128);
        i += 1;
    }
    let f_count: i128 = (i2 - fs) as i128;
    if i2 == n {
        return finish(neg, m, -f_count);
    }
    let c = s.get_char(i2);
    if !(c == 'e' || c == 'E') {
        return None;
    }
    let mut eneg = false;
    let mut j0 = i2 + 1;
    if i2 + 1 < n {
        let c2 = s.get_char(i2 + 1);
        if c2 == '-' {
            eneg = true;
            j0 = i2 + 2;
        } else if c2 == '+' {
            j0 = i2 + 2;
        }
    }
    let j1 = scan_digits(s, j0);
    if j1 == j0 || j1 < n {
        return None;
    }
    if j1 - j0 > 4 {
        return None;
    }
    proof {
        lemma_digits_end(s@, j0 as int);
        lemma_pow10_mono(0, 4);
        assert(pow10(4) == 10_000) by {
            reveal_with_fuel(pow10, 5);
        }
    }
    let mut e: i128 = 0;
    let mut j = j0;
    while j < j1
        invariant
            j0 <= j <= j1,
            j1 as int == digits_end(s@, j0 as int),
            j1 <= s@.len(),
            (j1 - j0) as int <= 4,
            forall|q: int| j0 <= q < j1 ==> is_digit(s@[q]),
            e as int == digits_val(s@, j0 as int, j as int),
            0 <= e < pow10((j - j0) as int),
            pow10((j - j0) as int) <= pow10(4),
            pow10(4) == 10_000,
        decreases j1 - j,
    {
        let c2 = s.get_char(j);
        let d = (c2 as u32) - 48;
        proof {
            lemma_pow10_mono((j - j0) as int + 1, 4);
        }
        e = 10 * e + (d as i128);
        j += 1;
    }
    let t: i128 = if eneg {
        -e - f_count
    } else {
        e - f_count
    };
    finish(neg, m, t)
}

} // verus!
