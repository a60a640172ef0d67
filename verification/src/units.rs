//! The ten supported units, their two families, and the case-insensitive
//! unit-name parser.

use vstd::prelude::*;

verus! {

/// The ten supported measurement units.
#[derive(Clone, Copy, PartialEq, Eq, Structural, Debug, Hash)]
pub enum Unit {
    /// Absolute temperature scale.
    Kelvin,
    /// Metric temperature scale.
    Celsius,
    /// Imperial temperature scale.
    Fahrenheit,
    /// Absolute temperature scale based on Fahrenheit.
    Rankine,
    /// Metric volume unit.
    Liters,
    /// US customary volume unit.
    Tablespoons,
    /// Imperial volume unit.
    CubicInches,
    /// US customary volume unit.
    Cups,
    /// Imperial volume unit.
    CubicFeet,
    /// US customary volume unit.
    Gallons,
}

/// The two disjoint families that partition the units.
#[derive(Clone, Copy, PartialEq, Eq, Structural, Debug)]
pub enum Family {
    Temperature,
    Volume,
}

impl Unit {
    /// The family a unit belongs to.
    pub open spec fn family(self) -> Family {
        match self {
            Unit::Kelvin => Family::Temperature,
            Unit::Celsius => Family::Temperature,
            Unit::Fahrenheit => Family::Temperature,
            Unit::Rankine => Family::Temperature,
            Unit::Liters => Family::Volume,
            Unit::Tablespoons => Family::Volume,
            Unit::CubicInches => Family::Volume,
            Unit::Cups => Family::Volume,
            Unit::CubicFeet => Family::Volume,
            Unit::Gallons => Family::Volume,
        }
    }
}

/// Error produced when a string names no known unit. It carries the
/// offending input unchanged (not uppercased).
#[derive(Clone, Eq, Debug)]
pub enum UnitParseError {
    UnknownUnit(String),
}

impl PartialEq for UnitParseError {
    fn eq(&self, other: &UnitParseError) -> (r: bool) {
        match (self, other) {
            (UnitParseError::UnknownUnit(a), UnitParseError::UnknownUnit(b)) => *a == *b,
        }
    }
}

impl UnitParseError {
    /// The human-readable message: it names the unit that failed to parse,
    /// quoted, after the words `Unknown unit: `.
    pub fn message(&self) -> (r: String)
        ensures
            match self {
                UnitParseError::UnknownUnit(s) => r@ == "Unknown unit: '"@ + s@ + "'"@,
            },
    {
        match self {
            UnitParseError::UnknownUnit(s) => {
                let mut out = "Unknown unit: '".to_owned();
                out.append(s.as_str());
                out.append("'");
                out
            },
        }
    }
}

impl vstd::std_specs::cmp::PartialEqSpecImpl for UnitParseError {
    open spec fn obeys_eq_spec() -> bool {
        true
    }

    open spec fn eq_spec(&self, other: &UnitParseError) -> bool {
        match (self, other) {
            (UnitParseError::UnknownUnit(a), UnitParseError::UnknownUnit(b)) => a@ == b@,
        }
    }
}

/// ASCII uppercase of one character: `'a'..='z'` maps to `'A'..='Z'`,
/// every other character is unchanged.
pub open spec fn upper_char(c: char) -> char {
    if 'a' <= c && c <= 'z' {
        ((c as u32) - 32) as char
    } else {
        c
    }
}

/// ASCII uppercase of a character sequence.
pub open spec fn upper_seq(s: Seq<char>) -> Seq<char> {
    s.map(|i: int, c: char| upper_char(c))
}

/// The unit named by a string, compared case-insensitively (ASCII) against
/// the ten canonical names; the two cubic units also accept a hyphen-free
/// alias.
pub open spec fn parse_unit_spec(s: Seq<char>) -> Option<Unit> {
    let u = upper_seq(s);
    if u == "KELVIN"@ {
        Some(Unit::Kelvin)
    } else if u == "CELSIUS"@ {
        Some(Unit::Celsius)
    } else if u == "FAHRENHEIT"@ {
        Some(Unit::Fahrenheit)
    } else if u == "RANKINE"@ {
        Some(Unit::Rankine)
    } else if u == "LITERS"@ {
        Some(Unit::Liters)
    } else if u == "TABLESPOONS"@ {
        Some(Unit::Tablespoons)
    } else if u == "CUBIC-INCHES"@ || u == "CUBICINCHES"@ {
        Some(Unit::CubicInches)
    } else if u == "CUPS"@ {
        Some(Unit::Cups)
    } else if u == "CUBIC-FEET"@ || u == "CUBICFEET"@ {
        Some(Unit::CubicFeet)
    } else if u == "GALLONS"@ {
        Some(Unit::Gallons)
    } else {
        None
    }
}

/// ASCII uppercase of one character.
fn to_upper(c: char) -> (r: char)
    ensures
        r == upper_char(c),
{
    if 'a' <= c && c <= 'z' {
        ((c as u8) - 32) as char
    } else {
        c
    }
}

/// Whether the ASCII uppercase of `s` equals `name` exactly.
fn matches_upper(s: &str, name: &str) -> (r: bool)
    ensures
        r == (upper_seq(s@) == name@),
{
    let n = s.unicode_len();
    if n != name.unicode_len() {
        proof {
            assert(upper_seq(s@).len() == s@.len());
        }
        return false;
    }
    let mut i: usize = 0;
    while i < n
        invariant
            0 <= i <= n,
            n == s@.len(),
            n == name@.len(),
            forall|j: int| 0 <= j < i ==> upper_char(s@[j]) == name@[j],
        decreases n - i,
    {
        let c = to_upper(s.get_char(i));
        let d = name.get_char(i);
        if c != d {
            proof {
                assert(upper_seq(s@)[i as int] != name@[i as int]);
            }
            return false;
        }
        i += 1;
    }
    proof {
        assert(upper_seq(s@) =~= name@);
    }
    true
}

impl Unit {
    /// Parses a unit name, case-insensitively. An unrecognised name yields
    /// [`UnitParseError::UnknownUnit`] carrying the input unchanged.
    pub fn from_str(s: &str) -> (r: Result<Unit, UnitParseError>)
        ensures
            match r {
                Ok(u) => parse_unit_spec(s@) == Some(u),
                Err(e) => parse_unit_spec(s@) is None && (match e {
                    UnitParseError::UnknownUnit(t) => t@ == s@,
                }),
            },
    {
        if matches_upper(s, "KELVIN") {
            Ok(Unit::Kelvin)
        } else if matches_upper(s, "CELSIUS") {
            Ok(Unit::Celsius)
        } else if matches_upper(s, "FAHRENHEIT") {
            Ok(Unit::Fahrenheit)
        } else if matches_upper(s, "RANKINE") {
            Ok(Unit::Rankine)
        } else if matches_upper(s, "LITERS") {
            Ok(Unit::Liters)
        } else if matches_upper(s, "TABLESPOONS") {
            Ok(Unit::Tablespoons)
        } else if matches_upper(s, "CUBIC-INCHES") || matches_upper(s, "CUBICINCHES") {
            Ok(Unit::CubicInches)
        } else if matches_upper(s, "CUPS") {
            Ok(Unit::Cups)
        } else if matches_upper(s, "CUBIC-FEET") || matches_upper(s, "CUBICFEET") {
            Ok(Unit::CubicFeet)
        } else if matches_upper(s, "GALLONS") {
            Ok(Unit::Gallons)
        } else {
            Err(UnitParseError::UnknownUnit(s.to_owned()))
        }
    }
}

/// Case-insensitivity of the parser: a string and its ASCII uppercase name
/// the same unit (or both name none).
pub proof fn lemma_parse_case_insensitive(s: Seq<char>)
    ensures
        parse_unit_spec(s) == parse_unit_spec(upper_seq(s)),
{
    assert forall|c: char| #[trigger] upper_char(upper_char(c)) == upper_char(c) by {
        if 'a' <= c && c <= 'z' {
            assert(!('a' <= upper_char(c) && upper_char(c) <= 'z'));
        }
    }
    assert(upper_seq(upper_seq(s)) =~= upper_seq(s));
}

} // verus!
