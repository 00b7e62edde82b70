//! Duration literals: one or more decimal digits followed by `s` or `ms`.
use vstd::prelude::*;

verus! {

/// The unit that ends a duration literal.
pub enum Unit {
    Secs,
    Millis,
}

/// What a scan of a duration literal ends on.
pub enum Scan {
    /// Digits with the given value, followed by a unit.
    Found { value: nat, unit: Unit },
    /// A character that is not a decimal digit, met before any unit.
    BadChar { c: char },
    /// The digits read so far no longer fit in a `u64`.
    TooLarge,
    /// The text ran out before a unit was met.
    NoUnit,
}

pub open spec fn is_digit(c: char) -> bool {
    '0' <= c && c <= '9'
}

pub open spec fn digit_value(c: char) -> nat {
    (c as int - '0' as int) as nat
}

/// The decimal value of a run of digits.
pub open spec fn digits_value(d: Seq<char>) -> nat
    decreases d.len(),
{
    if d.len() == 0 {
        0
    } else {
        digits_value(d.drop_last()) * 10 + digit_value(d.last())
    }
}

/// The unit that the text of `s` starting at `i` begins with, if any.
pub open spec fn unit_at(s: Seq<char>, i: int) -> Option<Unit> {
    if 0 <= i < s.len() && s[i] == 's' {
        Some(Unit::Secs)
    } else if 0 <= i && i + 1 < s.len() && s[i] == 'm' && s[i + 1] == 's' {
        Some(Unit::Millis)
    } else {
        None
    }
}

/// Scans `s` from position `i`: each position must hold a digit; the scan
/// stops at the first digit that a unit follows. Whatever stands after that
/// unit is not looked at.
pub open spec fn scan_from(s: Seq<char>, i: nat) -> Scan
    decreases s.len() - i,
{
    if i >= s.len() {
        Scan::NoUnit
    } else if !is_digit(s[i as int]) {
        Scan::BadChar { c: s[i as int] }
    } else if digits_value(s.take(i + 1int)) > u64::MAX {
        Scan::TooLarge
    } else {
        match unit_at(s, i + 1int) {
            Some(unit) => Scan::Found { value: digits_value(s.take(i + 1int)), unit },
            None => scan_from(s, i + 1),
        }
    }
}

/// The length in milliseconds of `value` counted in `unit`.
pub open spec fn unit_millis(value: nat, unit: Unit) -> nat {
    match unit {
        Unit::Secs => value * 1000,
        Unit::Millis => value,
    }
}

pub open spec fn invalid_prefix() -> Seq<char> {
    "Invalid character in duration string: "@
}

pub open spec fn range_prefix() -> Seq<char> {
    "Duration value out of range: "@
}

/// The interval in milliseconds that the literal `s` denotes, or the message
/// of the error that it gives.
pub open spec fn parse_result(s: Seq<char>) -> Result<nat, Seq<char>> {
    match scan_from(s, 0) {
        Scan::Found { value, unit } => Ok(unit_millis(value, unit)),
        Scan::BadChar { c } => Err(invalid_prefix() + seq![c]),
        Scan::TooLarge => Err(range_prefix() + s),
        Scan::NoUnit => Err(invalid_prefix() + s),
    }
}

/// A time interval, counted in milliseconds.
#[derive(Clone, Copy, Debug, PartialEq, Eq, Structural)]
pub struct DurationDef {
    pub millis: u128,
}

/// A duration literal that could not be read; it holds the reason.
#[derive(Debug, PartialEq, Eq)]
pub struct DurationParseError(pub String);

impl DurationDef {
    /// The interval of `secs` seconds.
    pub fn from_secs(secs: u64) -> (r: DurationDef)
        ensures
            r.millis == secs * 1000,
    {
        DurationDef { millis: secs as u128 * 1000 }
    }

    /// The interval of `millis` milliseconds.
    pub fn from_millis(millis: u64) -> (r: DurationDef)
        ensures
            r.millis == millis,
    {
        DurationDef { millis: millis as u128 }
    }

    /// The length of the interval in milliseconds.
    pub fn as_millis(&self) -> (r: u128)
        ensures
            r == self.millis,
    {
        self.millis
    }
}

pub open spec fn error_prefix() -> Seq<char> {
    "Invalid duration string: "@
}

impl DurationParseError {
    /// The text shown for this error.
    pub fn message(&self) -> (r: String)
        ensures
            r@ == error_prefix() + self.0@,
    {
        String::from_str("Invalid duration string: ").concat(self.0.as_str())
    }
}

/// Reads a duration literal: decimal digits followed by `s` (seconds) or
/// `ms` (milliseconds).
pub fn parse_duration(s: &str) -> (r: Result<DurationDef, DurationParseError>)
    ensures
        match parse_result(s@) {
            Ok(ms) => r is Ok && r->Ok_0.millis == ms,
            Err(m) => r is Err && r->Err_0.0@ == m,
        },
{
    let n = s.unicode_len();
    let mut i: usize = 0;
    let mut value: u64 = 0;
    while i < n
        invariant
            n == s@.len(),
            i <= n,
            value == digits_value(s@.take(i as int)),
            scan_from(s@, 0) == scan_from(s@, i as nat),
        decreases n - i,
    {
        let c = s.get_char(i);
        if !('0' <= c && c <= '9') {
            let mut m = String::from_str("Invalid character in duration string: ");
            m.append(s.substring_char(i, i + 1));
            assert(s@.subrange(i as int, i + 1) =~= seq![c]);
            return Err(DurationParseError(m));
        }
        let d: u64 = (c as u32 - '0' as u32) as u64;
        assert(s@.take(i + 1).drop_last() =~= s@.take(i as int));
        let next = match value.checked_mul(10) {
            Some(v) => v.checked_add(d),
            None => None,
        };
        match next {
            Some(v) => {
                value = v;
            },
            None => {
                let m = String::from_str("Duration value out of range: ").concat(s);
                return Err(DurationParseError(m));
            },
        }
        i = i + 1;
        if i < n {
            let u = s.get_char(i);
            if u == 's' {
                return Ok(DurationDef { millis: value as u128 * 1000 });
            } else if u == 'm' && i + 1 < n && s.get_char(i + 1) == 's' {
                return Ok(DurationDef { millis: value as u128 });
            }
        }
    }
    let m = String::from_str("Invalid character in duration string: ").concat(s);
    Err(DurationParseError(m))
}

/// Reads the value of a duration field of a configuration document. A literal
/// that does not parse gives the message that names it as a bad duration.
pub fn deserialize_duration(s: &str) -> (r: Result<DurationDef, String>)
    ensures
        match parse_result(s@) {
            Ok(ms) => r is Ok && r->Ok_0.millis == ms,
            Err(m) => r is Err && r->Err_0@ == error_prefix() + error_prefix() + m,
        },
{
    match parse_duration(s) {
        Ok(d) => Ok(d),
        Err(e) => Err(String::from_str("Invalid duration string: ").concat(e.message().as_str())),
    }
}

/// The text of a unit.
pub open spec fn unit_text(unit: Unit) -> Seq<char> {
    match unit {
        Unit::Secs => seq!['s'],
        Unit::Millis => seq!['m', 's'],
    }
}

/// Cutting a run of digits shorter never makes its value larger.
proof fn lemma_prefix_value_le(d: Seq<char>, j: int)
    requires
        0 <= j <= d.len(),
    ensures
        digits_value(d.take(j)) <= digits_value(d),
    decreases d.len() - j,
{
    if j == d.len() {
        assert(d.take(j) =~= d);
    } else {
        lemma_prefix_value_le(d, j + 1);
        assert(d.take(j + 1).drop_last() =~= d.take(j));
    }
}

/// Scanning `d + unit_text(unit)` from a position inside the digits `d`
/// reaches the unit after the last digit.
proof fn lemma_scan_digits(d: Seq<char>, unit: Unit, k: nat)
    requires
        k < d.len(),
        forall|i: int| 0 <= i < d.len() ==> is_digit(#[trigger] d[i]),
        digits_value(d) <= u64::MAX,
    ensures
        scan_from(d + unit_text(unit), k) == (Scan::Found { value: digits_value(d), unit }),
    decreases d.len() - k,
{
    let s = d + unit_text(unit);
    assert(s.take(k + 1int) =~= d.take(k + 1int));
    lemma_prefix_value_le(d, k + 1int);
    assert(is_digit(s[k as int]));
    if k + 1 == d.len() {
        assert(d.take(k + 1int) =~= d);
        assert(s[k + 1int] == unit_text(unit)[0]);
        if unit is Millis {
            assert(s[k + 2int] == 's');
        }
    } else {
        assert(s[k + 1int] == d[k + 1int]);
        assert(is_digit(d[k + 1int]));
        lemma_scan_digits(d, unit, k + 1);
    }
}

/// A literal made of one or more digits followed by `s` or `ms` reads as the
/// digits' value scaled by the unit, whenever that value fits in a `u64`.
/// `parse_result` depends on the literal alone, so reading the same literal
/// again gives the same interval.
pub proof fn lemma_digits_then_unit(d: Seq<char>, unit: Unit)
    requires
        d.len() > 0,
        forall|i: int| 0 <= i < d.len() ==> is_digit(#[trigger] d[i]),
        digits_value(d) <= u64::MAX,
    ensures
        parse_result(d + unit_text(unit)) == Ok::<nat, Seq<char>>(unit_millis(digits_value(d), unit)),
{
    lemma_scan_digits(d, unit, 0);
}

} // verus!
