//! Article timestamps.
//!
//! The store records when an article was saved as text of the form
//! `YYYY-MM-DD HH:MM:SS`. The feed needs that instant again as an RFC 2822
//! date line (`Tue, 01 Jan 2019 12:00:00 +0000`); both the parser and the
//! formatter live here, specified exactly.

use crate::strutil::push_char;
use vstd::prelude::*;
use vstd::string::StrSliceExecFns;
use vstd::string::StringExecFns;

verus! {

/// A calendar timestamp: a date and a time of day, second precision.
#[derive(Clone, Copy, Debug, PartialEq, Eq, Structural)]
pub struct Timestamp {
    pub year: u32,
    pub month: u32,
    pub day: u32,
    pub hour: u32,
    pub minute: u32,
    pub second: u32,
}

/// Whether `y` is a leap year of the Gregorian calendar.
pub open spec fn spec_is_leap_year(y: int) -> bool {
    y % 4 == 0 && (y % 100 != 0 || y % 400 == 0)
}

/// The number of days in month `m` of year `y`.
pub open spec fn spec_days_in_month(y: int, m: int) -> int {
    if m == 2 {
        if spec_is_leap_year(y) {
            29
        } else {
            28
        }
    } else if m == 4 || m == 6 || m == 9 || m == 11 {
        30
    } else {
        31
    }
}

impl Timestamp {
    /// A well-formed calendar date (years 1 through 9999) with a valid time
    /// of day.
    pub open spec fn valid(self) -> bool {
        &&& 1 <= self.year <= 9999
        &&& 1 <= self.month <= 12
        &&& 1 <= self.day <= spec_days_in_month(self.year as int, self.month as int)
        &&& self.hour < 24
        &&& self.minute < 60
        &&& self.second < 60
    }
}

/// An ASCII decimal digit.
pub open spec fn is_digit(c: char) -> bool {
    48 <= c as u32 <= 57
}

/// The value of an ASCII decimal digit.
pub open spec fn digit_val(c: char) -> int {
    c as u32 - 48
}

/// The value of the two digits of `s` at positions `i` and `i + 1`.
pub open spec fn spec_two_val(s: Seq<char>, i: int) -> int {
    digit_val(s[i]) * 10 + digit_val(s[i + 1])
}

/// The stored timestamp layout: `YYYY-MM-DD HH:MM:SS`, 19 characters.
pub open spec fn timestamp_shape_ok(s: Seq<char>) -> bool {
    &&& s.len() == 19
    &&& is_digit(s[0]) && is_digit(s[1]) && is_digit(s[2]) && is_digit(s[3])
    &&& s[4] == '-'
    &&& is_digit(s[5]) && is_digit(s[6])
    &&& s[7] == '-'
    &&& is_digit(s[8]) && is_digit(s[9])
    &&& s[10] == ' '
    &&& is_digit(s[11]) && is_digit(s[12])
    &&& s[13] == ':'
    &&& is_digit(s[14]) && is_digit(s[15])
    &&& s[16] == ':'
    &&& is_digit(s[17]) && is_digit(s[18])
}

/// The fields spelled by a string of the stored layout.
pub open spec fn spec_parse_fields(s: Seq<char>) -> Timestamp
    recommends
        timestamp_shape_ok(s),
{
    Timestamp {
        year: (digit_val(s[0]) * 1000 + digit_val(s[1]) * 100 + digit_val(s[2]) * 10 + digit_val(
            s[3],
        )) as u32,
        month: spec_two_val(s, 5) as u32,
        day: spec_two_val(s, 8) as u32,
        hour: spec_two_val(s, 11) as u32,
        minute: spec_two_val(s, 14) as u32,
        second: spec_two_val(s, 17) as u32,
    }
}

/// A string that both has the stored layout and spells a valid timestamp.
pub open spec fn timestamp_format_ok(s: Seq<char>) -> bool {
    timestamp_shape_ok(s) && spec_parse_fields(s).valid()
}

/// The value of one ASCII digit character, or `None` for any other character.
fn digit(c: char) -> (r: Option<u32>)
    ensures
        r is Some <==> is_digit(c),
        r matches Some(d) ==> d == digit_val(c) && d <= 9,
{
    let u = c as u32;
    if 48 <= u && u <= 57 {
        Some(u - 48)
    } else {
        None
    }
}

/// The two-digit number at position `i` of `s`, or `None` if either
/// character is not a digit.
fn read_two(s: &str, i: usize) -> (r: Option<u32>)
    requires
        i + 2 <= s@.len(),
        s@.len() <= usize::MAX,
    ensures
        r is Some <==> is_digit(s@[i as int]) && is_digit(s@[i + 1]),
        r matches Some(v) ==> v == spec_two_val(s@, i as int) && v <= 99,
{
    let hi = match digit(s.get_char(i)) {
        Some(d) => d,
        None => { return None; },
    };
    let lo = match digit(s.get_char(i + 1)) {
        Some(d) => d,
        None => { return None; },
    };
    Some(hi * 10 + lo)
}

/// Whether `y` is a leap year.
pub fn is_leap_year(y: u32) -> (r: bool)
    ensures
        r == spec_is_leap_year(y as int),
{
    y % 4 == 0 && (y % 100 != 0 || y % 400 == 0)
}

/// The number of days in month `m` of year `y`.
pub fn days_in_month(y: u32, m: u32) -> (r: u32)
    requires
        1 <= m <= 12,
    ensures
        r == spec_days_in_month(y as int, m as int),
{
    if m == 2 {
        if is_leap_year(y) {
            29
        } else {
            28
        }
    } else if m == 4 || m == 6 || m == 9 || m == 11 {
        30
    } else {
        31
    }
}

/// Parses a stored timestamp. Returns the spelled fields exactly when the
/// string has the `YYYY-MM-DD HH:MM:SS` layout and those fields form a valid
/// calendar timestamp; returns `None` for every other string.
pub fn parse_timestamp(s: &str) -> (r: Option<Timestamp>)
    ensures
        r is Some <==> timestamp_format_ok(s@),
        r matches Some(t) ==> t == spec_parse_fields(s@) && t.valid(),
{
    if s.unicode_len() != 19 {
        return None;
    }
    if s.get_char(4) != '-' || s.get_char(7) != '-' || s.get_char(10) != ' ' || s.get_char(13)
        != ':' || s.get_char(16) != ':' {
        return None;
    }
    let hi = match read_two(s, 0) {
        Some(v) => v,
        None => { return None; },
    };
    let lo = match read_two(s, 2) {
        Some(v) => v,
        None => { return None; },
    };
    let year = hi * 100 + lo;
    let month = match read_two(s, 5) {
        Some(v) => v,
        None => { return None; },
    };
    let day = match read_two(s, 8) {
        Some(v) => v,
        None => { return None; },
    };
    let hour = match read_two(s, 11) {
        Some(v) => v,
        None => { return None; },
    };
    let minute = match read_two(s, 14) {
        Some(v) => v,
        None => { return None; },
    };
    let second = match read_two(s, 17) {
        Some(v) => v,
        None => { return None; },
    };
    let t = Timestamp { year, month, day, hour, minute, second };
    if 1 <= year && 1 <= month && month <= 12 && 1 <= day && day <= days_in_month(year, month)
        && hour < 24 && minute < 60 && second < 60 {
        Some(t)
    } else {
        None
    }
}

/// The day of the week of a valid timestamp, as an index: 0 is Saturday,
/// 1 is Sunday, and so on through 6, Friday (Zeller's congruence).
pub open spec fn spec_weekday(t: Timestamp) -> int {
    let m: int = if t.month <= 2 {
        t.month + 12
    } else {
        t.month as int
    };
    let y: int = if t.month <= 2 {
        t.year - 1
    } else {
        t.year as int
    };
    let k = y % 100;
    let j = y / 100;
    (t.day + (13 * (m + 1)) / 5 + k + k / 4 + j / 4 + 5 * j) % 7
}

/// The day of the week of a valid timestamp.
pub fn weekday(t: Timestamp) -> (r: u32)
    requires
        t.valid(),
    ensures
        r == spec_weekday(t),
        r < 7,
{
    let m: u32 = if t.month <= 2 {
        t.month + 12
    } else {
        t.month
    };
    let y: u32 = if t.month <= 2 {
        t.year - 1
    } else {
        t.year
    };
    let k = y % 100;
    let j = y / 100;
    (t.day + (13 * (m + 1)) / 5 + k + k / 4 + j / 4 + 5 * j) % 7
}

/// The character of one decimal digit.
pub open spec fn spec_digit_char(d: int) -> char {
    if d == 0 {
        '0'
    } else if d == 1 {
        '1'
    } else if d == 2 {
        '2'
    } else if d == 3 {
        '3'
    } else if d == 4 {
        '4'
    } else if d == 5 {
        '5'
    } else if d == 6 {
        '6'
    } else if d == 7 {
        '7'
    } else if d == 8 {
        '8'
    } else {
        '9'
    }
}

/// A number below 100 written with exactly two digits.
pub open spec fn spec_two_digits(n: int) -> Seq<char> {
    seq![spec_digit_char(n / 10), spec_digit_char(n % 10)]
}

/// A number below 10000 written with exactly four digits.
pub open spec fn spec_four_digits(n: int) -> Seq<char> {
    seq![
        spec_digit_char(n / 1000),
        spec_digit_char((n / 100) % 10),
        spec_digit_char((n / 10) % 10),
        spec_digit_char(n % 10),
    ]
}

/// The RFC 2822 month abbreviation.
pub open spec fn spec_month_name(m: int) -> Seq<char> {
    if m == 1 {
        "Jan"@
    } else if m == 2 {
        "Feb"@
    } else if m == 3 {
        "Mar"@
    } else if m == 4 {
        "Apr"@
    } else if m == 5 {
        "May"@
    } else if m == 6 {
        "Jun"@
    } else if m == 7 {
        "Jul"@
    } else if m == 8 {
        "Aug"@
    } else if m == 9 {
        "Sep"@
    } else if m == 10 {
        "Oct"@
    } else if m == 11 {
        "Nov"@
    } else {
        "Dec"@
    }
}

/// The RFC 2822 weekday abbreviation for a Zeller index.
pub open spec fn spec_weekday_name(h: int) -> Seq<char> {
    if h == 0 {
        "Sat"@
    } else if h == 1 {
        "Sun"@
    } else if h == 2 {
        "Mon"@
    } else if h == 3 {
        "Tue"@
    } else if h == 4 {
        "Wed"@
    } else if h == 5 {
        "Thu"@
    } else {
        "Fri"@
    }
}

/// A valid timestamp written as an RFC 2822 date line, with a fixed `+0000`
/// zone: the store records civil time without a zone, and the feed reports
/// it unshifted.
pub open spec fn spec_rfc2822(t: Timestamp) -> Seq<char> {
    spec_weekday_name(spec_weekday(t)) + ", "@ + spec_two_digits(t.day as int) + " "@
        + spec_month_name(t.month as int) + " "@ + spec_four_digits(t.year as int) + " "@
        + spec_two_digits(t.hour as int) + ":"@ + spec_two_digits(t.minute as int) + ":"@
        + spec_two_digits(t.second as int) + " +0000"@
}

/// One digit character.
fn digit_char(d: u32) -> (c: char)
    requires
        d < 10,
    ensures
        c == spec_digit_char(d as int),
{
    match d {
        0 => '0',
        1 => '1',
        2 => '2',
        3 => '3',
        4 => '4',
        5 => '5',
        6 => '6',
        7 => '7',
        8 => '8',
        _ => '9',
    }
}

/// Appends `n` to `out` as exactly two digits.
fn push_two_digits(out: &mut String, n: u32)
    requires
        n < 100,
    ensures
        final(out)@ == old(out)@ + spec_two_digits(n as int),
{
    push_char(out, digit_char(n / 10));
    push_char(out, digit_char(n % 10));
    assert(final(out)@ =~= old(out)@ + spec_two_digits(n as int));
}

/// Appends `n` to `out` as exactly four digits.
fn push_four_digits(out: &mut String, n: u32)
    requires
        n < 10000,
    ensures
        final(out)@ == old(out)@ + spec_four_digits(n as int),
{
    push_char(out, digit_char(n / 1000));
    push_char(out, digit_char((n / 100) % 10));
    push_char(out, digit_char((n / 10) % 10));
    push_char(out, digit_char(n % 10));
    assert(final(out)@ =~= old(out)@ + spec_four_digits(n as int));
}

/// The month abbreviation.
fn month_name(m: u32) -> (r: &'static str)
    requires
        1 <= m <= 12,
    ensures
        r@ == spec_month_name(m as int),
{
    match m {
        1 => "Jan",
        2 => "Feb",
        3 => "Mar",
        4 => "Apr",
        5 => "May",
        6 => "Jun",
        7 => "Jul",
        8 => "Aug",
        9 => "Sep",
        10 => "Oct",
        11 => "Nov",
        _ => "Dec",
    }
}

/// The weekday abbreviation for a Zeller index.
fn weekday_name(h: u32) -> (r: &'static str)
    requires
        h < 7,
    ensures
        r@ == spec_weekday_name(h as int),
{
    match h {
        0 => "Sat",
        1 => "Sun",
        2 => "Mon",
        3 => "Tue",
        4 => "Wed",
        5 => "Thu",
        _ => "Fri",
    }
}

/// Writes a valid timestamp as an RFC 2822 date line with a `+0000` zone.
pub fn format_rfc2822(t: Timestamp) -> (r: String)
    requires
        t.valid(),
    ensures
        r@ == spec_rfc2822(t),
{
    let mut out = String::new();
    out.append(weekday_name(weekday(t)));
    out.append(", ");
    push_two_digits(&mut out, t.day);
    out.append(" ");
    out.append(month_name(t.month));
    out.append(" ");
    push_four_digits(&mut out, t.year);
    out.append(" ");
    push_two_digits(&mut out, t.hour);
    out.append(":");
    push_two_digits(&mut out, t.minute);
    out.append(":");
    push_two_digits(&mut out, t.second);
    out.append(" +0000");
    assert(out@ =~= spec_rfc2822(t));
    out
}

} // verus!
