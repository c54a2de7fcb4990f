//! Calendar timestamps as plain values, with a verified parser and formatter
//! for the fixed `YYYY-MM-DD HH:MM:SS` pattern the service accepts.

use vstd::prelude::*;
use crate::text::{spec_two_digit_chars, spec_four_digit_chars, two_digit_string, four_digit_string};
use vstd::string::StrSliceExecFns;
use vstd::string::StringExecFns;

verus! {

/// A calendar timestamp with second precision, field by field.
#[derive(Clone, Copy, PartialEq, Eq, Structural, Debug)]
pub struct DateTime {
    pub year: u16,
    pub month: u8,
    pub day: u8,
    pub hour: u8,
    pub minute: u8,
    pub second: u8,
}

/// The Gregorian leap-year rule.
pub open spec fn is_leap_year(y: int) -> bool {
    (y % 4 == 0 && y % 100 != 0) || y % 400 == 0
}

/// Days in a month of the Gregorian calendar.
pub open spec fn days_in_month(y: int, m: int) -> int {
    if m == 2 {
        if is_leap_year(y) {
            29
        } else {
            28
        }
    } else if m == 4 || m == 6 || m == 9 || m == 11 {
        30
    } else {
        31
    }
}

impl DateTime {
    /// A calendar-valid timestamp with a four-digit year.
    pub open spec fn wf(self) -> bool {
        &&& self.year <= 9999
        &&& 1 <= self.month <= 12
        &&& 1 <= self.day <= days_in_month(self.year as int, self.month as int)
        &&& self.hour <= 23
        &&& self.minute <= 59
        &&& self.second <= 59
    }
}

/// Whether a character is a decimal digit.
pub open spec fn is_digit(c: char) -> bool {
    48 <= c as u32 <= 57
}

/// The value of a decimal digit character.
pub open spec fn digit_val(c: char) -> int {
    c as u32 - 48
}

/// The value of the two digits starting at position `i`.
pub open spec fn two_val(s: Seq<char>, i: int) -> int {
    10 * digit_val(s[i]) + digit_val(s[i + 1])
}

/// The value of the four digits starting at position `i`.
pub open spec fn four_val(s: Seq<char>, i: int) -> int {
    1000 * digit_val(s[i]) + 100 * digit_val(s[i + 1]) + 10 * digit_val(s[i + 2]) + digit_val(
        s[i + 3],
    )
}

/// Whether a character sequence is a calendar-valid timestamp in the fixed
/// `YYYY-MM-DD HH:MM:SS` pattern.
pub open spec fn valid_datetime_chars(s: Seq<char>) -> bool {
    &&& s.len() == 19
    &&& is_digit(s[0]) && is_digit(s[1]) && is_digit(s[2]) && is_digit(s[3])
    &&& s[4] == '-'
    &&& is_digit(s[5]) && is_digit(s[6])
    &&& s[7] == '-'
    &&& is_digit(s[8]) && is_digit(s[9])
    &&& s[10] == ' '
    &&& is_digit(s[11]) && is_digit(s[12])
    &&& s[13] == ':'
    &&& is_digit(s[14]) && is_digit(s[15])
    &&& s[16] == ':'
    &&& is_digit(s[17]) && is_digit(s[18])
    &&& 1 <= two_val(s, 5) <= 12
    &&& 1 <= two_val(s, 8) <= days_in_month(four_val(s, 0), two_val(s, 5))
    &&& two_val(s, 11) <= 23
    &&& two_val(s, 14) <= 59
    &&& two_val(s, 17) <= 59
}

/// The timestamp a valid character sequence denotes.
pub open spec fn spec_parse_datetime(s: Seq<char>) -> DateTime {
    DateTime {
        year: four_val(s, 0) as u16,
        month: two_val(s, 5) as u8,
        day: two_val(s, 8) as u8,
        hour: two_val(s, 11) as u8,
        minute: two_val(s, 14) as u8,
        second: two_val(s, 17) as u8,
    }
}

/// The canonical rendering of a timestamp, `YYYY-MM-DD HH:MM:SS`.
pub open spec fn spec_datetime_chars(dt: DateTime) -> Seq<char> {
    spec_four_digit_chars(dt.year as int) + seq!['-'] + spec_two_digit_chars(dt.month as int)
        + seq!['-'] + spec_two_digit_chars(dt.day as int) + seq![' '] + spec_two_digit_chars(
        dt.hour as int,
    ) + seq![':'] + spec_two_digit_chars(dt.minute as int) + seq![':'] + spec_two_digit_chars(
        dt.second as int,
    )
}

fn digit_at(s: &str, i: usize) -> (r: Option<u8>)
    requires
        i < s@.len(),
    ensures
        r is Some <==> is_digit(s@[i as int]),
        r is Some ==> r.unwrap() as int == digit_val(s@[i as int]),
{
    let c = s.get_char(i);
    let u = c as u32;
    if 48 <= u && u <= 57 {
        Some((u - 48) as u8)
    } else {
        None
    }
}

fn char_at_is(s: &str, i: usize, expected: char) -> (r: bool)
    requires
        i < s@.len(),
    ensures
        r == (s@[i as int] == expected),
{
    s.get_char(i) == expected
}

fn leap_year(y: u16) -> (r: bool)
    ensures
        r == is_leap_year(y as int),
{
    (y % 4 == 0 && y % 100 != 0) || y % 400 == 0
}

/// Days in a month, executable form.
pub fn days_in_month_of(y: u16, m: u8) -> (r: u8)
    ensures
        r as int == days_in_month(y as int, m as int),
{
    if m == 2 {
        if leap_year(y) {
            29
        } else {
            28
        }
    } else if m == 4 || m == 6 || m == 9 || m == 11 {
        30
    } else {
        31
    }
}

/// Parses a timestamp in the fixed `YYYY-MM-DD HH:MM:SS` pattern.  Returns
/// the parsed timestamp exactly when the whole input matches the pattern and
/// is calendar-valid, and nothing otherwise.
pub fn parse_datetime(s: &str) -> (r: Option<DateTime>)
    ensures
        r is Some <==> valid_datetime_chars(s@),
        r is Some ==> r.unwrap() == spec_parse_datetime(s@) && r.unwrap().wf(),
{
    let n = s.unicode_len();
    if n != 19 {
        return None;
    }
    let d0 = match digit_at(s, 0) { Some(d) => d, None => { return None; } };
    let d1 = match digit_at(s, 1) { Some(d) => d, None => { return None; } };
    let d2 = match digit_at(s, 2) { Some(d) => d, None => { return None; } };
    let d3 = match digit_at(s, 3) { Some(d) => d, None => { return None; } };
    if !char_at_is(s, 4, '-') {
        return None;
    }
    let m0 = match digit_at(s, 5) { Some(d) => d, None => { return None; } };
    let m1 = match digit_at(s, 6) { Some(d) => d, None => { return None; } };
    if !char_at_is(s, 7, '-') {
        return None;
    }
    let day0 = match digit_at(s, 8) { Some(d) => d, None => { return None; } };
    let day1 = match digit_at(s, 9) { Some(d) => d, None => { return None; } };
    if !char_at_is(s, 10, ' ') {
        return None;
    }
    let h0 = match digit_at(s, 11) { Some(d) => d, None => { return None; } };
    let h1 = match digit_at(s, 12) { Some(d) => d, None => { return None; } };
    if !char_at_is(s, 13, ':') {
        return None;
    }
    let mi0 = match digit_at(s, 14) { Some(d) => d, None => { return None; } };
    let mi1 = match digit_at(s, 15) { Some(d) => d, None => { return None; } };
    if !char_at_is(s, 16, ':') {
        return None;
    }
    let s0 = match digit_at(s, 17) { Some(d) => d, None => { return None; } };
    let s1 = match digit_at(s, 18) { Some(d) => d, None => { return None; } };
    let year: u16 = d0 as u16 * 1000 + d1 as u16 * 100 + d2 as u16 * 10 + d3 as u16;
    let month: u8 = m0 * 10 + m1;
    let day: u8 = day0 * 10 + day1;
    let hour: u8 = h0 * 10 + h1;
    let minute: u8 = mi0 * 10 + mi1;
    let second: u8 = s0 * 10 + s1;
    if month < 1 || month > 12 {
        return None;
    }
    if day < 1 || day > days_in_month_of(year, month) {
        return None;
    }
    if hour > 23 || minute > 59 || second > 59 {
        return None;
    }
    Some(DateTime { year, month, day, hour, minute, second })
}

/// Renders a timestamp in the canonical `YYYY-MM-DD HH:MM:SS` pattern.
pub fn format_datetime(dt: &DateTime) -> (r: String)
    requires
        dt.wf(),
    ensures
        r@ == spec_datetime_chars(*dt),
{
    proof {
        reveal_strlit("-");
        reveal_strlit(" ");
        reveal_strlit(":");
    }
    let mut out = four_digit_string(dt.year as u64);
    out.append("-");
    out.append(two_digit_string(dt.month as u64).as_str());
    out.append("-");
    out.append(two_digit_string(dt.day as u64).as_str());
    out.append(" ");
    out.append(two_digit_string(dt.hour as u64).as_str());
    out.append(":");
    out.append(two_digit_string(dt.minute as u64).as_str());
    out.append(":");
    out.append(two_digit_string(dt.second as u64).as_str());
    proof {
        assert(out@ =~= spec_datetime_chars(*dt));
    }
    out
}

/// Timestamp order: not-newer-than, field by field from year to second.
pub open spec fn spec_dt_le(a: DateTime, b: DateTime) -> bool {
    if a.year != b.year {
        a.year < b.year
    } else if a.month != b.month {
        a.month < b.month
    } else if a.day != b.day {
        a.day < b.day
    } else if a.hour != b.hour {
        a.hour < b.hour
    } else if a.minute != b.minute {
        a.minute < b.minute
    } else {
        a.second <= b.second
    }
}

/// Whether `a` is scheduled at or before `b`.
pub fn dt_le(a: &DateTime, b: &DateTime) -> (r: bool)
    ensures
        r == spec_dt_le(*a, *b),
{
    if a.year != b.year {
        a.year < b.year
    } else if a.month != b.month {
        a.month < b.month
    } else if a.day != b.day {
        a.day < b.day
    } else if a.hour != b.hour {
        a.hour < b.hour
    } else if a.minute != b.minute {
        a.minute < b.minute
    } else {
        a.second <= b.second
    }
}

/// The timestamp order is total.
pub proof fn lemma_dt_le_total(a: DateTime, b: DateTime)
    ensures
        spec_dt_le(a, b) || spec_dt_le(b, a),
{
}

/// The timestamp order is transitive.
pub proof fn lemma_dt_le_trans(a: DateTime, b: DateTime, c: DateTime)
    requires
        spec_dt_le(a, b),
        spec_dt_le(b, c),
    ensures
        spec_dt_le(a, c),
{
}


proof fn lemma_digit_char_of_val(c: char)
    requires
        is_digit(c),
    ensures
        crate::text::spec_digit_char(digit_val(c)) == c,
{
    if digit_val(c) == 0 {
        assert(c as u32 == 48);
        assert(c == '0');
    } else if digit_val(c) == 1 {
        assert(c == '1');
    } else if digit_val(c) == 2 {
        assert(c == '2');
    } else if digit_val(c) == 3 {
        assert(c == '3');
    } else if digit_val(c) == 4 {
        assert(c == '4');
    } else if digit_val(c) == 5 {
        assert(c == '5');
    } else if digit_val(c) == 6 {
        assert(c == '6');
    } else if digit_val(c) == 7 {
        assert(c == '7');
    } else if digit_val(c) == 8 {
        assert(c == '8');
    } else {
        assert(c == '9');
    }
}

/// Rendering a parsed timestamp gives back the text it was parsed from:
/// the fixed pattern has exactly one rendering per value.
#[verifier::rlimit(100)]
pub proof fn lemma_format_parse_round_trip(s: Seq<char>)
    requires
        valid_datetime_chars(s),
    ensures
        spec_datetime_chars(spec_parse_datetime(s)) == s,
{
    let dt = spec_parse_datetime(s);
    lemma_digit_char_of_val(s[0]);
    lemma_digit_char_of_val(s[1]);
    lemma_digit_char_of_val(s[2]);
    lemma_digit_char_of_val(s[3]);
    lemma_digit_char_of_val(s[5]);
    lemma_digit_char_of_val(s[6]);
    lemma_digit_char_of_val(s[8]);
    lemma_digit_char_of_val(s[9]);
    lemma_digit_char_of_val(s[11]);
    lemma_digit_char_of_val(s[12]);
    lemma_digit_char_of_val(s[14]);
    lemma_digit_char_of_val(s[15]);
    lemma_digit_char_of_val(s[17]);
    lemma_digit_char_of_val(s[18]);
    assert(dt.year as int == four_val(s, 0));
    assert(spec_four_digit_chars(dt.year as int) =~= seq![s[0], s[1], s[2], s[3]]) by {
        assert(four_val(s, 0) / 1000 == digit_val(s[0]));
        assert(four_val(s, 0) / 100 % 10 == digit_val(s[1]));
        assert(four_val(s, 0) / 10 % 10 == digit_val(s[2]));
        assert(four_val(s, 0) % 10 == digit_val(s[3]));
    }
    assert(spec_two_digit_chars(dt.month as int) =~= seq![s[5], s[6]]) by {
        assert(two_val(s, 5) / 10 == digit_val(s[5]));
        assert(two_val(s, 5) % 10 == digit_val(s[6]));
    }
    assert(spec_two_digit_chars(dt.day as int) =~= seq![s[8], s[9]]) by {
        assert(two_val(s, 8) / 10 == digit_val(s[8]));
        assert(two_val(s, 8) % 10 == digit_val(s[9]));
    }
    assert(spec_two_digit_chars(dt.hour as int) =~= seq![s[11], s[12]]) by {
        assert(two_val(s, 11) / 10 == digit_val(s[11]));
        assert(two_val(s, 11) % 10 == digit_val(s[12]));
    }
    assert(spec_two_digit_chars(dt.minute as int) =~= seq![s[14], s[15]]) by {
        assert(two_val(s, 14) / 10 == digit_val(s[14]));
        assert(two_val(s, 14) % 10 == digit_val(s[15]));
    }
    assert(spec_two_digit_chars(dt.second as int) =~= seq![s[17], s[18]]) by {
        assert(two_val(s, 17) / 10 == digit_val(s[17]));
        assert(two_val(s, 17) % 10 == digit_val(s[18]));
    }
    assert(spec_datetime_chars(dt) =~= s);
}

/// Parsing a rendered timestamp gives back the value: the rendering of a
/// calendar-valid timestamp is itself valid, and denotes that timestamp.
#[verifier::rlimit(100)]
pub proof fn lemma_parse_format_round_trip(dt: DateTime)
    requires
        dt.wf(),
    ensures
        valid_datetime_chars(spec_datetime_chars(dt)),
        spec_parse_datetime(spec_datetime_chars(dt)) == dt,
{
    let s = spec_datetime_chars(dt);
    assert(s.len() == 19);
    assert(s[0] == crate::text::spec_digit_char(dt.year as int / 1000));
    assert(s[1] == crate::text::spec_digit_char(dt.year as int / 100 % 10));
    assert(s[2] == crate::text::spec_digit_char(dt.year as int / 10 % 10));
    assert(s[3] == crate::text::spec_digit_char(dt.year as int % 10));
    assert(s[4] == '-');
    assert(s[5] == crate::text::spec_digit_char(dt.month as int / 10));
    assert(s[6] == crate::text::spec_digit_char(dt.month as int % 10));
    assert(s[7] == '-');
    assert(s[8] == crate::text::spec_digit_char(dt.day as int / 10));
    assert(s[9] == crate::text::spec_digit_char(dt.day as int % 10));
    assert(s[10] == ' ');
    assert(s[11] == crate::text::spec_digit_char(dt.hour as int / 10));
    assert(s[12] == crate::text::spec_digit_char(dt.hour as int % 10));
    assert(s[13] == ':');
    assert(s[14] == crate::text::spec_digit_char(dt.minute as int / 10));
    assert(s[15] == crate::text::spec_digit_char(dt.minute as int % 10));
    assert(s[16] == ':');
    assert(s[17] == crate::text::spec_digit_char(dt.second as int / 10));
    assert(s[18] == crate::text::spec_digit_char(dt.second as int % 10));
    lemma_digit_val_of_char(dt.year as int / 1000);
    lemma_digit_val_of_char(dt.year as int / 100 % 10);
    lemma_digit_val_of_char(dt.year as int / 10 % 10);
    lemma_digit_val_of_char(dt.year as int % 10);
    lemma_digit_val_of_char(dt.month as int / 10);
    lemma_digit_val_of_char(dt.month as int % 10);
    lemma_digit_val_of_char(dt.day as int / 10);
    lemma_digit_val_of_char(dt.day as int % 10);
    lemma_digit_val_of_char(dt.hour as int / 10);
    lemma_digit_val_of_char(dt.hour as int % 10);
    lemma_digit_val_of_char(dt.minute as int / 10);
    lemma_digit_val_of_char(dt.minute as int % 10);
    lemma_digit_val_of_char(dt.second as int / 10);
    lemma_digit_val_of_char(dt.second as int % 10);
    assert(four_val(s, 0) == dt.year as int);
    assert(two_val(s, 5) == dt.month as int);
    assert(two_val(s, 8) == dt.day as int);
    assert(two_val(s, 11) == dt.hour as int);
    assert(two_val(s, 14) == dt.minute as int);
    assert(two_val(s, 17) == dt.second as int);
}

proof fn lemma_digit_val_of_char(d: int)
    requires
        0 <= d <= 9,
    ensures
        is_digit(crate::text::spec_digit_char(d)),
        digit_val(crate::text::spec_digit_char(d)) == d,
{
}

} // verus!
