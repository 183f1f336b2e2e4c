//! The wall clock, through `chrono`.

use crate::text::{digit_char, digit_value, is_digit, push_char};
use vstd::prelude::*;
use vstd::string::*;

verus! {

/// Calls `chrono::Utc::now` and renders the instant with
/// `DateTime::to_rfc3339`.  The result depends on the time of the call, so
/// nothing is stated about it.
#[verifier::external_body]
pub(crate) fn rfc3339_now() -> String {
    chrono::Utc::now().to_rfc3339()
}

/// Calls `chrono::Utc::now`, adds `chrono::Duration::hours(hours)` with
/// chrono's `+`, and renders the instant with `DateTime::to_rfc3339`.  The
/// result depends on the time of the call, so nothing is stated about it;
/// `hours` is kept small enough that neither `Duration::hours` nor the
/// addition can panic.
#[verifier::external_body]
pub(crate) fn rfc3339_hours_from_now(hours: i64) -> String
    requires
        0 <= hours <= 1_000_000,
{
    (chrono::Utc::now() + chrono::Duration::hours(hours)).to_rfc3339()
}

// ---------------------------------------------------------------------------
// Calendar days of RFC 3339 timestamps
// ---------------------------------------------------------------------------

/// Leap years of the Gregorian calendar.
pub open spec fn is_leap_year(y: int) -> bool {
    (y % 4 == 0 && y % 100 != 0) || y % 400 == 0
}

/// Days in month `m` (1 to 12) of year `y`.
pub open spec fn month_days(y: int, m: int) -> int {
    if m == 2 {
        if is_leap_year(y) {
            29
        } else {
            28
        }
    } else if m == 4 || m == 6 || m == 9 || m == 11 {
        30
    } else {
        31
    }
}

/// Days in year `y`.
pub open spec fn year_days(y: int) -> int {
    if is_leap_year(y) {
        366
    } else {
        365
    }
}

/// Days from 1 January of year 0 to 1 January of year `y`.
pub open spec fn days_before_year(y: int) -> int
    decreases y,
{
    if y <= 0 {
        0
    } else {
        days_before_year(y - 1) + year_days(y - 1)
    }
}

/// Days of year `y` before month `m`.
pub open spec fn days_before_month(y: int, m: int) -> int
    decreases m,
{
    if m <= 1 {
        0
    } else {
        days_before_month(y, m - 1) + month_days(y, m - 1)
    }
}

/// The number of a day, counted from 1 January of year 0 (which is day 1).
pub open spec fn day_number(y: int, m: int, d: int) -> int {
    days_before_year(y) + days_before_month(y, m) + d
}

/// The value of the two decimal digits at `i` and `i + 1`.
pub open spec fn two_digits(s: Seq<char>, i: int) -> int {
    digit_value(s[i]) * 10 + digit_value(s[i + 1])
}

/// The date an RFC 3339 timestamp (`YYYY-MM-DDT...`) names, when it names a
/// valid one.
pub open spec fn rfc3339_date(s: Seq<char>) -> Option<(int, int, int)> {
    if s.len() >= 11 && is_digit(s[0]) && is_digit(s[1]) && is_digit(s[2]) && is_digit(s[3])
        && s[4] == '-' && is_digit(s[5]) && is_digit(s[6]) && s[7] == '-' && is_digit(s[8])
        && is_digit(s[9]) && s[10] == 'T' {
        let y = two_digits(s, 0) * 100 + two_digits(s, 2);
        let m = two_digits(s, 5);
        let d = two_digits(s, 8);
        if 1 <= m <= 12 && 1 <= d <= month_days(y, m) {
            Some((y, m, d))
        } else {
            None
        }
    } else {
        None
    }
}

/// The time of day and offset of a timestamp: what follows its date.
pub open spec fn rfc3339_time_part(s: Seq<char>) -> Seq<char> {
    s.subrange(10, s.len() as int)
}

/// Law: the day after a date is numbered one more, so a timestamp moved to
/// the next day with the same time of day is 24 hours later.
pub proof fn law_next_date_is_one_day_later(y: int, m: int, d: int)
    requires
        y >= 0,
        1 <= m <= 12,
        1 <= d <= month_days(y, m),
    ensures
        ({
            let (y2, m2, d2) = next_date(y, m, d);
            &&& 1 <= m2 <= 12
            &&& 1 <= d2 <= month_days(y2, m2)
            &&& day_number(y2, m2, d2) == day_number(y, m, d) + 1
        }),
{
    if d == month_days(y, m) && m == 12 {
        reveal_with_fuel(days_before_month, 13);
        assert(days_before_month(y, 12) + 31 == year_days(y));
        assert(days_before_year(y + 1) == days_before_year(y) + year_days(y));
    }
}

/// The day after a date.
pub open spec fn next_date(y: int, m: int, d: int) -> (int, int, int) {
    if d < month_days(y, m) {
        (y, m, d + 1)
    } else if m < 12 {
        (y, m + 1, 1)
    } else {
        (y + 1, 1, 1)
    }
}

fn digit_of(c: char) -> (r: Option<u32>)
    ensures
        match r {
            Some(v) => is_digit(c) && v as int == digit_value(c) && v < 10,
            None => !is_digit(c),
        },
{
    if '0' <= c && c <= '9' {
        Some((c as u32) - ('0' as u32))
    } else {
        None
    }
}

fn digit_char_of(v: u32) -> (c: char)
    requires
        v < 10,
    ensures
        c == digit_char(v as nat),
        is_digit(c),
        digit_value(c) == v,
{
    match v {
        0 => '0',
        1 => '1',
        2 => '2',
        3 => '3',
        4 => '4',
        5 => '5',
        6 => '6',
        7 => '7',
        8 => '8',
        _ => '9',
    }
}

fn month_length(y: u32, m: u32) -> (r: u32)
    requires
        1 <= m <= 12,
    ensures
        r as int == month_days(y as int, m as int),
{
    if m == 2 {
        if (y % 4 == 0 && y % 100 != 0) || y % 400 == 0 {
            29
        } else {
            28
        }
    } else if m == 4 || m == 6 || m == 9 || m == 11 {
        30
    } else {
        31
    }
}

fn push_two(out: &mut String, v: u32)
    requires
        v < 100,
    ensures
        final(out)@.len() == old(out)@.len() + 2,
        final(out)@.subrange(0, old(out)@.len() as int) == old(out)@,
        is_digit(final(out)@[old(out)@.len() as int]),
        is_digit(final(out)@[old(out)@.len() as int + 1]),
        two_digits(final(out)@, old(out)@.len() as int) == v,
{
    let ghost before = out@;
    let hi = digit_char_of(v / 10);
    let lo = digit_char_of(v % 10);
    push_char(out, hi);
    push_char(out, lo);
    proof {
        assert(out@ =~= before + seq![hi, lo]);
        assert(out@.subrange(0, before.len() as int) =~= before);
        assert(out@[before.len() as int] == hi);
        assert(out@[before.len() as int + 1] == lo);
    }
}

/// The date `YYYY-MM-DD` of year `y`, month `m`, day `d`.
fn format_date(y: u32, m: u32, d: u32) -> (r: String)
    requires
        y <= 9999,
        m < 100,
        d < 100,
    ensures
        r@.len() == 10,
        is_digit(r@[0]) && is_digit(r@[1]) && is_digit(r@[2]) && is_digit(r@[3]),
        r@[4] == '-' && r@[7] == '-',
        is_digit(r@[5]) && is_digit(r@[6]) && is_digit(r@[8]) && is_digit(r@[9]),
        two_digits(r@, 0) * 100 + two_digits(r@, 2) == y,
        two_digits(r@, 5) == m,
        two_digits(r@, 8) == d,
{
    let mut out = String::new();
    push_two(&mut out, y / 100);
    let ghost s1 = out@;
    push_two(&mut out, y % 100);
    let ghost s2 = out@;
    push_char(&mut out, '-');
    let ghost s3 = out@;
    push_two(&mut out, m);
    let ghost s4 = out@;
    push_char(&mut out, '-');
    let ghost s5 = out@;
    push_two(&mut out, d);
    proof {
        let e = out@;
        assert(s5.len() == 8);
        assert(e.subrange(0, 8) == s5);
        assert(s5 == s4.push('-'));
        assert(s4.subrange(0, 5) == s3);
        assert(s3 == s2.push('-'));
        assert(s2.subrange(0, 2) == s1);
        assert(e[0] == s5[0] && e[1] == s5[1] && e[2] == s5[2] && e[3] == s5[3]);
        assert(e[4] == s5[4] && e[5] == s5[5] && e[6] == s5[6] && e[7] == s5[7]);
        assert(s5[0] == s4[0] && s5[1] == s4[1] && s5[2] == s4[2] && s5[3] == s4[3]);
        assert(s5[4] == s4[4] && s5[5] == s4[5] && s5[6] == s4[6]);
        assert(s4[0] == s3[0] && s4[1] == s3[1] && s4[2] == s3[2] && s4[3] == s3[3] && s4[4] == s3[4]);
        assert(s3[0] == s2[0] && s3[1] == s2[1] && s3[2] == s2[2] && s3[3] == s2[3]);
        assert(s2[0] == s1[0] && s2[1] == s1[1]);
        assert(two_digits(e, 0) == two_digits(s1, 0));
        assert(two_digits(e, 2) == two_digits(s2, 2));
        assert(two_digits(e, 5) == two_digits(s4, 5));
        assert((y / 100) * 100 + y % 100 == y);
    }
    out
}

/// The date at the start of a timestamp, as numbers.
fn parse_date(t: &str) -> (r: Option<(u32, u32, u32)>)
    ensures
        match r {
            Some((y, m, d)) => y <= 9999 && rfc3339_date(t@) == Some((y as int, m as int, d as int)),
            None => rfc3339_date(t@) is None,
        },
{
    let n = t.unicode_len();
    if n < 11 {
        return None;
    }
    if t.get_char(4) != '-' || t.get_char(7) != '-' || t.get_char(10) != 'T' {
        return None;
    }
    let a0 = match digit_of(t.get_char(0)) { Some(v) => v, None => { return None; } };
    let a1 = match digit_of(t.get_char(1)) { Some(v) => v, None => { return None; } };
    let a2 = match digit_of(t.get_char(2)) { Some(v) => v, None => { return None; } };
    let a3 = match digit_of(t.get_char(3)) { Some(v) => v, None => { return None; } };
    let m0 = match digit_of(t.get_char(5)) { Some(v) => v, None => { return None; } };
    let m1 = match digit_of(t.get_char(6)) { Some(v) => v, None => { return None; } };
    let d0 = match digit_of(t.get_char(8)) { Some(v) => v, None => { return None; } };
    let d1 = match digit_of(t.get_char(9)) { Some(v) => v, None => { return None; } };
    let y: u32 = (a0 * 10 + a1) * 100 + (a2 * 10 + a3);
    let m: u32 = m0 * 10 + m1;
    let d: u32 = d0 * 10 + d1;
    if m < 1 || m > 12 {
        return None;
    }
    let ml = month_length(y, m);
    if d < 1 || d > ml {
        return None;
    }
    Some((y, m, d))
}

/// The timestamp one day (24 hours) after `t`: the next date with the same
/// time of day and offset.  `None` when `t` does not start with a valid
/// `YYYY-MM-DD` date followed by `T`, or names the last day of year 9999.
pub fn rfc3339_next_day(t: &str) -> (r: Option<String>)
    ensures
        match rfc3339_date(t@) {
            Some((y, m, d)) => if y == 9999 && m == 12 && d == 31 {
                r is None
            } else {
                r matches Some(e) && rfc3339_date(e@) == Some(next_date(y, m, d))
                    && rfc3339_time_part(e@) == rfc3339_time_part(t@)
            },
            None => r is None,
        },
{
    let (y, m, d) = match parse_date(t) {
        Some(x) => x,
        None => {
            return None;
        },
    };
    if y == 9999 && m == 12 && d == 31 {
        return None;
    }
    let ml = month_length(y, m);
    let (y2, m2, d2): (u32, u32, u32) = if d < ml {
        (y, m, d + 1)
    } else if m < 12 {
        (y, m + 1, 1)
    } else {
        (y + 1, 1, 1)
    };
    proof {
        law_next_date_is_one_day_later(y as int, m as int, d as int);
    }
    let mut out = format_date(y2, m2, d2);
    let ghost head = out@;
    let n = t.unicode_len();
    let rest = t.substring_char(10, n);
    out.append(rest);
    proof {
        let e = out@;
        assert(e =~= head + t@.subrange(10, n as int));
        assert(e.subrange(10, e.len() as int) =~= t@.subrange(10, t@.len() as int));
        assert(e[0] == head[0] && e[1] == head[1] && e[2] == head[2] && e[3] == head[3]);
        assert(e[4] == head[4] && e[5] == head[5] && e[6] == head[6] && e[7] == head[7]);
        assert(e[8] == head[8] && e[9] == head[9]);
        assert(e[10] == t@[10]);
        assert(two_digits(e, 0) == two_digits(head, 0));
        assert(two_digits(e, 2) == two_digits(head, 2));
        assert(two_digits(e, 5) == two_digits(head, 5));
        assert(two_digits(e, 8) == two_digits(head, 8));
    }
    Some(out)
}

} // verus!
