//! Time codec: the three textual time representations used by the feeds
//! are converted into canonical epoch microseconds.  Each conversion is
//! total-or-fail: any deviation from the expected shape yields `None`,
//! never an approximate value.

use vstd::prelude::*;
use crate::text::{digit_val, is_digit, str_eq};

verus! {

broadcast use vstd::string::group_string_axioms;

pub open spec fn is_leap(y: int) -> bool {
    y % 4 == 0 && (y % 100 != 0 || y % 400 == 0)
}

pub open spec fn days_in_year(y: int) -> int {
    if is_leap(y) {
        366
    } else {
        365
    }
}

/// Days from 1970-01-01 to the first day of year `y`.
pub open spec fn days_before_year(y: int) -> int
    decreases y - 1970,
{
    if y <= 1970 {
        0
    } else {
        days_before_year(y - 1) + days_in_year(y - 1)
    }
}

/// Days before month `m` in a common year.
pub open spec fn month_days_cum(m: int) -> int {
    if m <= 1 {
        0
    } else if m == 2 {
        31
    } else if m == 3 {
        59
    } else if m == 4 {
        90
    } else if m == 5 {
        120
    } else if m == 6 {
        151
    } else if m == 7 {
        181
    } else if m == 8 {
        212
    } else if m == 9 {
        243
    } else if m == 10 {
        273
    } else if m == 11 {
        304
    } else {
        334
    }
}

pub open spec fn days_before_month(y: int, m: int) -> int {
    month_days_cum(m) + if m > 2 && is_leap(y) {
        1int
    } else {
        0int
    }
}

pub open spec fn days_in_month(y: int, m: int) -> int {
    if m == 2 {
        if is_leap(y) {
            29
        } else {
            28
        }
    } else if m == 4 || m == 6 || m == 9 || m == 11 {
        30
    } else {
        31
    }
}

pub open spec fn valid_date(y: int, m: int, d: int) -> bool {
    1970 <= y <= 9999 && 1 <= m <= 12 && 1 <= d <= days_in_month(y, m)
}

pub open spec fn valid_time(h: int, mi: int, s: int) -> bool {
    0 <= h < 24 && 0 <= mi < 60 && 0 <= s < 60
}

/// Seconds from the epoch to the given civil instant.
pub open spec fn civil_secs(y: int, m: int, d: int, h: int, mi: int, s: int) -> int {
    (days_before_year(y) + days_before_month(y, m) + (d - 1)) * 86400 + h * 3600 + mi * 60 + s
}

pub proof fn lemma_days_before_year_bound(y: int)
    requires
        y <= 10000,
    ensures
        0 <= days_before_year(y) <= 366 * (y - 1970) || days_before_year(y) == 0,
    decreases y - 1970,
{
    if y > 1970 {
        lemma_days_before_year_bound(y - 1);
    }
}

/// Exact civil-to-epoch conversion, by running over the years.
pub fn civil_secs_exec(y: u64, m: u64, d: u64, h: u64, mi: u64, s: u64) -> (r: u64)
    requires
        valid_date(y as int, m as int, d as int),
        valid_time(h as int, mi as int, s as int),
    ensures
        r as int == civil_secs(y as int, m as int, d as int, h as int, mi as int, s as int),
{
    let mut days: u64 = 0;
    let mut yy: u64 = 1970;
    while yy < y
        invariant
            1970 <= yy <= y <= 9999,
            days as int == days_before_year(yy as int),
            days <= 366 * (yy - 1970),
        decreases y - yy,
    {
        days += if leap_exec(yy) {
            366
        } else {
            365
        };
        yy += 1;
    }
    let before_month: u64 = month_cum_exec(m) + if m > 2 && leap_exec(y) {
        1
    } else {
        0
    };
    let total_days: u64 = days + before_month + (d - 1);
    total_days * 86400 + h * 3600 + mi * 60 + s
}

fn leap_exec(y: u64) -> (r: bool)
    ensures
        r == is_leap(y as int),
{
    y % 4 == 0 && (y % 100 != 0 || y % 400 == 0)
}

fn month_cum_exec(m: u64) -> (r: u64)
    ensures
        r as int == month_days_cum(m as int),
{
    if m <= 1 {
        0
    } else if m == 2 {
        31
    } else if m == 3 {
        59
    } else if m == 4 {
        90
    } else if m == 5 {
        120
    } else if m == 6 {
        151
    } else if m == 7 {
        181
    } else if m == 8 {
        212
    } else if m == 9 {
        243
    } else if m == 10 {
        273
    } else if m == 11 {
        304
    } else {
        334
    }
}

fn days_in_month_exec(y: u64, m: u64) -> (r: u64)
    ensures
        r as int == days_in_month(y as int, m as int),
{
    if m == 2 {
        if leap_exec(y) {
            29
        } else {
            28
        }
    } else if m == 4 || m == 6 || m == 9 || m == 11 {
        30
    } else {
        31
    }
}

/// Reads two decimal digits at `i` as a number.
pub open spec fn two_digit(s: Seq<char>, i: int) -> int {
    digit_val(s[i]) * 10 + digit_val(s[i + 1])
}

/// Reads four decimal digits at `i` as a number.
pub open spec fn four_digit(s: Seq<char>, i: int) -> int {
    two_digit(s, i) * 100 + two_digit(s, i + 2)
}

pub open spec fn digits_at(s: Seq<char>, i: int, n: int) -> bool {
    forall|k: int| i <= k < i + n ==> is_digit(#[trigger] s[k])
}

fn read_two(s: &str, i: usize) -> (r: u64)
    requires
        i + 2 <= s@.len(),
        s@.len() < 100,
        digits_at(s@, i as int, 2),
    ensures
        r as int == two_digit(s@, i as int),
        r <= 99,
{
    let a = s.get_char(i) as u32 - 48;
    let b = s.get_char(i + 1) as u32 - 48;
    (a * 10 + b) as u64
}

fn read_four(s: &str, i: usize) -> (r: u64)
    requires
        i + 4 <= s@.len(),
        s@.len() < 100,
        digits_at(s@, i as int, 4),
    ensures
        r as int == four_digit(s@, i as int),
        r <= 9999,
{
    let hi = read_two(s, i);
    let lo = read_two(s, i + 2);
    hi * 100 + lo
}

fn check_digits(s: &str, i: usize, n: usize) -> (r: bool)
    requires
        i + n <= s@.len(),
        s@.len() < 100,
    ensures
        r == digits_at(s@, i as int, n as int),
{
    let mut k: usize = 0;
    while k < n
        invariant
            i + n <= s@.len(),
            s@.len() < 100,
            k <= n,
            forall|k2: int| i <= k2 < i + k ==> is_digit(#[trigger] s@[k2]),
        decreases n - k,
    {
        let c = s.get_char(i + k) as u32;
        if !(48 <= c && c <= 57) {
            return false;
        }
        k += 1;
    }
    true
}

/// Shape of a canonical issuance timestamp: `YYYY-MM-DDTHH:MM:SS+00:00`.
pub open spec fn ts_shape(s: Seq<char>) -> bool {
    &&& s.len() == 25
    &&& digits_at(s, 0, 4)
    &&& s[4] == '-'
    &&& digits_at(s, 5, 2)
    &&& s[7] == '-'
    &&& digits_at(s, 8, 2)
    &&& s[10] == 'T'
    &&& digits_at(s, 11, 2)
    &&& s[13] == ':'
    &&& digits_at(s, 14, 2)
    &&& s[16] == ':'
    &&& digits_at(s, 17, 2)
    &&& s[19] == '+'
    &&& s[20] == '0'
    &&& s[21] == '0'
    &&& s[22] == ':'
    &&& s[23] == '0'
    &&& s[24] == '0'
}

/// Epoch microseconds of a canonical issuance timestamp; `None` on any
/// deviation from the exact shape or from a real calendar date.
pub open spec fn ts_ticks(s: Seq<char>) -> Option<u64> {
    if ts_shape(s) {
        let y = four_digit(s, 0);
        let mo = two_digit(s, 5);
        let d = two_digit(s, 8);
        let h = two_digit(s, 11);
        let mi = two_digit(s, 14);
        let sec = two_digit(s, 17);
        if valid_date(y, mo, d) && valid_time(h, mi, sec) {
            Some((civil_secs(y, mo, d, h, mi, sec) * 1000000) as u64)
        } else {
            None
        }
    } else {
        None
    }
}

/// Converts a canonical fixed-offset issuance timestamp to epoch
/// microseconds.
pub fn ts_to_ticks(input: &str) -> (r: Option<u64>)
    ensures
        r == ts_ticks(input@),
{
    let len = input.unicode_len();
    if len != 25 {
        return None;
    }
    if !(check_digits(input, 0, 4) && input.get_char(4) == '-' && check_digits(input, 5, 2)
        && input.get_char(7) == '-' && check_digits(input, 8, 2) && input.get_char(10) == 'T'
        && check_digits(input, 11, 2) && input.get_char(13) == ':' && check_digits(input, 14, 2)
        && input.get_char(16) == ':' && check_digits(input, 17, 2) && input.get_char(19) == '+'
        && input.get_char(20) == '0' && input.get_char(21) == '0' && input.get_char(22) == ':'
        && input.get_char(23) == '0' && input.get_char(24) == '0') {
        return None;
    }
    let y = read_four(input, 0);
    let mo = read_two(input, 5);
    let d = read_two(input, 8);
    let h = read_two(input, 11);
    let mi = read_two(input, 14);
    let sec = read_two(input, 17);
    if !date_time_ok(y, mo, d, h, mi, sec) {
        return None;
    }
    let secs = civil_secs_exec(y, mo, d, h, mi, sec);
    proof {
        lemma_days_before_year_bound(y as int);
    }
    Some(secs * 1000000)
}

fn date_time_ok(y: u64, mo: u64, d: u64, h: u64, mi: u64, sec: u64) -> (r: bool)
    ensures
        r == (valid_date(y as int, mo as int, d as int) && valid_time(
            h as int,
            mi as int,
            sec as int,
        )),
{
    1970 <= y && y <= 9999 && 1 <= mo && mo <= 12 && 1 <= d && d <= days_in_month_exec(y, mo) && h
        < 24 && mi < 60 && sec < 60
}

/// Shape of a short validity stamp: `yyMMddTHHMMZ`.
pub open spec fn short_shape(s: Seq<char>) -> bool {
    &&& s.len() == 12
    &&& digits_at(s, 0, 6)
    &&& s[6] == 'T'
    &&& digits_at(s, 7, 4)
    &&& s[11] == 'Z'
}

/// Century rule for two-digit years: 00-68 fall in the 2000s, 69-99 in
/// the 1900s.
pub open spec fn short_year(yy: int) -> int {
    if yy <= 68 {
        2000 + yy
    } else {
        1900 + yy
    }
}

/// Epoch microseconds of a short validity stamp; seconds are zero.
pub open spec fn short_ticks(s: Seq<char>) -> Option<u64> {
    if short_shape(s) {
        let y = short_year(two_digit(s, 0));
        let mo = two_digit(s, 2);
        let d = two_digit(s, 4);
        let h = two_digit(s, 7);
        let mi = two_digit(s, 9);
        if valid_date(y, mo, d) && valid_time(h, mi, 0) {
            Some((civil_secs(y, mo, d, h, mi, 0) * 1000000) as u64)
        } else {
            None
        }
    } else {
        None
    }
}

/// Converts a short `yyMMddTHHMMZ` validity stamp to epoch microseconds.
pub fn short_time_to_ticks(input: &str) -> (r: Option<u64>)
    ensures
        r == short_ticks(input@),
{
    let len = input.unicode_len();
    if len != 12 {
        return None;
    }
    if !(check_digits(input, 0, 6) && input.get_char(6) == 'T' && check_digits(input, 7, 4)
        && input.get_char(11) == 'Z') {
        return None;
    }
    let yy = read_two(input, 0);
    let y = if yy <= 68 {
        2000 + yy
    } else {
        1900 + yy
    };
    let mo = read_two(input, 2);
    let d = read_two(input, 4);
    let h = read_two(input, 7);
    let mi = read_two(input, 9);
    if !date_time_ok(y, mo, d, h, mi, 0) {
        return None;
    }
    let secs = civil_secs_exec(y, mo, d, h, mi, 0);
    proof {
        lemma_days_before_year_bound(y as int);
    }
    Some(secs * 1000000)
}

/// Shape of a composite report timestamp: `MM/DD/YYYYHHMM AM+ZZZZ`, a
/// twelve-hour clock with an explicit offset.
pub open spec fn report_shape(s: Seq<char>) -> bool {
    &&& s.len() == 22
    &&& digits_at(s, 0, 2)
    &&& s[2] == '/'
    &&& digits_at(s, 3, 2)
    &&& s[5] == '/'
    &&& digits_at(s, 6, 4)
    &&& digits_at(s, 10, 4)
    &&& s[14] == ' '
    &&& (s[15] == 'A' || s[15] == 'P')
    &&& s[16] == 'M'
    &&& (s[17] == '+' || s[17] == '-')
    &&& digits_at(s, 18, 4)
}

/// Epoch microseconds of a composite report timestamp.
pub open spec fn report_ticks_spec(s: Seq<char>) -> Option<u64> {
    if report_shape(s) {
        let mo = two_digit(s, 0);
        let d = two_digit(s, 3);
        let y = four_digit(s, 6);
        let h12 = two_digit(s, 10);
        let mi = two_digit(s, 12);
        let h = h12 % 12 + if s[15] == 'P' {
            12int
        } else {
            0int
        };
        let oh = two_digit(s, 18);
        let om = two_digit(s, 20);
        let off = (oh * 3600 + om * 60) * (if s[17] == '-' {
            -1int
        } else {
            1int
        });
        if valid_date(y, mo, d) && 1 <= h12 <= 12 && 0 <= mi < 60 && oh <= 23 && om <= 59
            && civil_secs(y, mo, d, h, mi, 0) - off >= 0 {
            Some(((civil_secs(y, mo, d, h, mi, 0) - off) * 1000000) as u64)
        } else {
            None
        }
    } else {
        None
    }
}

/// Converts a composite twelve-hour-clock report timestamp with explicit
/// offset to epoch microseconds.
pub fn get_report_ticks(input: &str) -> (r: Option<u64>)
    ensures
        r == report_ticks_spec(input@),
{
    let len = input.unicode_len();
    if len != 22 {
        return None;
    }
    if !(check_digits(input, 0, 2) && input.get_char(2) == '/' && check_digits(input, 3, 2)
        && input.get_char(5) == '/' && check_digits(input, 6, 4) && check_digits(input, 10, 4)
        && input.get_char(14) == ' ' && (input.get_char(15) == 'A' || input.get_char(15) == 'P')
        && input.get_char(16) == 'M' && (input.get_char(17) == '+' || input.get_char(17) == '-')
        && check_digits(input, 18, 4)) {
        return None;
    }
    let mo = read_two(input, 0);
    let d = read_two(input, 3);
    let y = read_four(input, 6);
    let h12 = read_two(input, 10);
    let mi = read_two(input, 12);
    let pm = input.get_char(15) == 'P';
    let h = h12 % 12 + if pm {
        12
    } else {
        0
    };
    let neg = input.get_char(17) == '-';
    let oh = read_two(input, 18);
    let om = read_two(input, 20);
    if !(date_time_ok(y, mo, d, h, mi, 0) && 1 <= h12 && h12 <= 12 && oh <= 23 && om <= 59) {
        return None;
    }
    let secs = civil_secs_exec(y, mo, d, h, mi, 0) as i64;
    proof {
        lemma_days_before_year_bound(y as int);
    }
    let off: i64 = (oh as i64 * 3600 + om as i64 * 60) * (if neg {
        -1
    } else {
        1
    });
    let total = secs - off;
    if total < 0 {
        return None;
    }
    Some((total as u64) * 1000000)
}

/// Shape of a spotter-report timestamp: `YYYY-MM-DD HH:MM:SS`.
pub open spec fn sn_shape(s: Seq<char>) -> bool {
    &&& s.len() == 19
    &&& digits_at(s, 0, 4)
    &&& s[4] == '-'
    &&& digits_at(s, 5, 2)
    &&& s[7] == '-'
    &&& digits_at(s, 8, 2)
    &&& s[10] == ' '
    &&& digits_at(s, 11, 2)
    &&& s[13] == ':'
    &&& digits_at(s, 14, 2)
    &&& s[16] == ':'
    &&& digits_at(s, 17, 2)
}

/// Epoch microseconds of a spotter-report timestamp.
pub open spec fn sn_ticks(s: Seq<char>) -> Option<u64> {
    if sn_shape(s) {
        let y = four_digit(s, 0);
        let mo = two_digit(s, 5);
        let d = two_digit(s, 8);
        let h = two_digit(s, 11);
        let mi = two_digit(s, 14);
        let sec = two_digit(s, 17);
        if valid_date(y, mo, d) && valid_time(h, mi, sec) {
            Some((civil_secs(y, mo, d, h, mi, sec) * 1000000) as u64)
        } else {
            None
        }
    } else {
        None
    }
}

/// Converts a spotter-report timestamp to epoch microseconds.
pub fn sn_time_to_ticks(input: &str) -> (r: Option<u64>)
    ensures
        r == sn_ticks(input@),
{
    let len = input.unicode_len();
    if len != 19 {
        return None;
    }
    if !(check_digits(input, 0, 4) && input.get_char(4) == '-' && check_digits(input, 5, 2)
        && input.get_char(7) == '-' && check_digits(input, 8, 2) && input.get_char(10) == ' '
        && check_digits(input, 11, 2) && input.get_char(13) == ':' && check_digits(input, 14, 2)
        && input.get_char(16) == ':' && check_digits(input, 17, 2)) {
        return None;
    }
    let y = read_four(input, 0);
    let mo = read_two(input, 5);
    let d = read_two(input, 8);
    let h = read_two(input, 11);
    let mi = read_two(input, 14);
    let sec = read_two(input, 17);
    if !date_time_ok(y, mo, d, h, mi, sec) {
        return None;
    }
    let secs = civil_secs_exec(y, mo, d, h, mi, sec);
    proof {
        lemma_days_before_year_bound(y as int);
    }
    Some(secs * 1000000)
}

/// Fixed UTC offset of a United States time-zone abbreviation.
pub open spec fn tz_offset_spec(s: Seq<char>) -> Option<Seq<char>> {
    if s == "HST"@ {
        Some("-1000"@)
    } else if s == "HDT"@ {
        Some("-0900"@)
    } else if s == "AKST"@ {
        Some("-0900"@)
    } else if s == "AKDT"@ {
        Some("-0800"@)
    } else if s == "PST"@ {
        Some("-0800"@)
    } else if s == "PDT"@ {
        Some("-0700"@)
    } else if s == "MST"@ {
        Some("-0700"@)
    } else if s == "MDT"@ {
        Some("-0600"@)
    } else if s == "CST"@ {
        Some("-0600"@)
    } else if s == "CDT"@ {
        Some("-0500"@)
    } else if s == "EST"@ {
        Some("-0500"@)
    } else if s == "EDT"@ {
        Some("-0400"@)
    } else if s == "AST"@ {
        Some("-0400"@)
    } else if s == "ADT"@ {
        Some("-0300"@)
    } else {
        None
    }
}

/// Looks up the fixed UTC offset of a time-zone abbreviation; an unknown
/// abbreviation fails.
pub fn tz_to_offset(input: &str) -> (r: Result<&'static str, ()>)
    ensures
        match r {
            Ok(o) => tz_offset_spec(input@) == Some(o@),
            Err(_) => tz_offset_spec(input@) is None,
        },
{
    proof {
        reveal_strlit("HST");
        reveal_strlit("HDT");
        reveal_strlit("AKST");
        reveal_strlit("AKDT");
        reveal_strlit("PST");
        reveal_strlit("PDT");
        reveal_strlit("MST");
        reveal_strlit("MDT");
        reveal_strlit("CST");
        reveal_strlit("CDT");
        reveal_strlit("EST");
        reveal_strlit("EDT");
        reveal_strlit("AST");
        reveal_strlit("ADT");
        assert("HST".is_ascii());
        assert("HDT".is_ascii());
        assert("AKST".is_ascii());
        assert("AKDT".is_ascii());
        assert("PST".is_ascii());
        assert("PDT".is_ascii());
        assert("MST".is_ascii());
        assert("MDT".is_ascii());
        assert("CST".is_ascii());
        assert("CDT".is_ascii());
        assert("EST".is_ascii());
        assert("EDT".is_ascii());
        assert("AST".is_ascii());
        assert("ADT".is_ascii());
    }
    if str_eq("HST", input) {
        Ok("-1000")
    } else if str_eq("HDT", input) {
        Ok("-0900")
    } else if str_eq("AKST", input) {
        Ok("-0900")
    } else if str_eq("AKDT", input) {
        Ok("-0800")
    } else if str_eq("PST", input) {
        Ok("-0800")
    } else if str_eq("PDT", input) {
        Ok("-0700")
    } else if str_eq("MST", input) {
        Ok("-0700")
    } else if str_eq("MDT", input) {
        Ok("-0600")
    } else if str_eq("CST", input) {
        Ok("-0600")
    } else if str_eq("CDT", input) {
        Ok("-0500")
    } else if str_eq("EST", input) {
        Ok("-0500")
    } else if str_eq("EDT", input) {
        Ok("-0400")
    } else if str_eq("AST", input) {
        Ok("-0400")
    } else if str_eq("ADT", input) {
        Ok("-0300")
    } else {
        Err(())
    }
}

} // verus!
