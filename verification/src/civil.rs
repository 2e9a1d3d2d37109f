//! Civil (proleptic Gregorian) dates and times, the day arithmetic on them,
//! and the calls into `chrono` that read the local time zone, parse input,
//! and step dates by days.
use vstd::prelude::*;
use chrono::{Datelike, TimeZone, Timelike};
use crate::text::{decimal_nat, pad_left_seq, u64_digits, pad_left, string_from_chars};

verus! {

/// The earliest year that `chrono::NaiveDate` can hold.
pub const MIN_YEAR: i32 = -262143;

/// The latest year that `chrono::NaiveDate` can hold.
pub const MAX_YEAR: i32 = 262142;

/// A calendar date: year, month (1 to 12) and day of the month.
#[derive(Debug, Clone, Copy, PartialEq, Eq, Structural)]
pub struct CivilDate {
    pub year: i32,
    pub month: u32,
    pub day: u32,
}

/// A calendar date with a time of day.
#[derive(Debug, Clone, Copy, PartialEq, Eq, Structural)]
pub struct CivilDateTime {
    pub date: CivilDate,
    pub hour: u32,
    pub minute: u32,
    pub second: u32,
}

/// What the local time zone makes of a civil date-time: no instant (a gap
/// at a clock change), one instant, or two (an overlap), each a Unix
/// timestamp in seconds.
#[derive(Debug, Clone, Copy, PartialEq, Eq, Structural)]
pub enum LocalTime {
    Gap,
    Single(i64),
    Ambiguous(i64, i64),
}

pub open spec fn is_leap_year(y: int) -> bool {
    y % 4 == 0 && (y % 100 != 0 || y % 400 == 0)
}

/// The number of days in month `m` of year `y` (0 for a month outside 1 to 12).
pub open spec fn month_length(y: int, m: int) -> int {
    if m == 2 {
        if is_leap_year(y) { 29 } else { 28 }
    } else if m == 4 || m == 6 || m == 9 || m == 11 {
        30
    } else if 1 <= m <= 12 {
        31
    } else {
        0
    }
}

/// Whether year `y`, month `m`, day `d` is a date that `chrono` can hold.
pub open spec fn date_exists(y: int, m: int, d: int) -> bool {
    MIN_YEAR <= y <= MAX_YEAR && 1 <= m <= 12 && 1 <= d <= month_length(y, m)
}

pub open spec fn valid_date(d: CivilDate) -> bool {
    date_exists(d.year as int, d.month as int, d.day as int)
}

pub open spec fn valid_time(h: int, m: int, s: int) -> bool {
    0 <= h < 24 && 0 <= m < 60 && 0 <= s < 60
}

pub open spec fn valid_date_time(dt: CivilDateTime) -> bool {
    valid_date(dt.date) && valid_time(dt.hour as int, dt.minute as int, dt.second as int)
}

/// The number of leap years from year 0 up to, not including, year `y`
/// (negative for `y < 0`).
pub open spec fn leap_years_before(y: int) -> int {
    (y + 3) / 4 - (y + 99) / 100 + (y + 399) / 400
}

/// The number of days in the months of year `y` before month `m`.
pub open spec fn days_before_month(y: int, m: int) -> int {
    let base: int = if m <= 1 { 0 } else if m == 2 { 31 } else if m == 3 { 59 } else if m == 4 { 90 }
        else if m == 5 { 120 } else if m == 6 { 151 } else if m == 7 { 181 } else if m == 8 { 212 }
        else if m == 9 { 243 } else if m == 10 { 273 } else if m == 11 { 304 } else { 334 };
    if m > 2 && is_leap_year(y) { base + 1 } else { base }
}

/// The day count of year `y`, month `m`, day `d` from 0000-01-01 (day 0).
pub open spec fn day_number(y: int, m: int, d: int) -> int {
    365 * y + leap_years_before(y) + days_before_month(y, m) + d - 1
}

pub open spec fn date_day_number(d: CivilDate) -> int {
    day_number(d.year as int, d.month as int, d.day as int)
}

/// The day count of the earliest and the latest date that `chrono` holds.
pub open spec fn first_day_number() -> int {
    day_number(MIN_YEAR as int, 1, 1)
}

pub open spec fn last_day_number() -> int {
    day_number(MAX_YEAR as int, 12, 31)
}

/// Lexicographic order on dates.
pub open spec fn date_before(a: CivilDate, b: CivilDate) -> bool {
    ||| a.year < b.year
    ||| a.year == b.year && a.month < b.month
    ||| a.year == b.year && a.month == b.month && a.day < b.day
}

/// The day of the week, counted from Monday (0) to Sunday (6); 1970-01-01
/// was a Thursday.
pub open spec fn weekday_from_monday(d: CivilDate) -> int {
    (date_day_number(d) - day_number(1970, 1, 1) + 3) % 7
}

proof fn lemma_step_4(y: int)
    ensures
        (y + 4) / 4 - (y + 3) / 4 == if y % 4 == 0 { 1int } else { 0int },
{
}

proof fn lemma_step_100(y: int)
    ensures
        (y + 100) / 100 - (y + 99) / 100 == if y % 100 == 0 { 1int } else { 0int },
{
}

proof fn lemma_step_400(y: int)
    ensures
        (y + 400) / 400 - (y + 399) / 400 == if y % 400 == 0 { 1int } else { 0int },
{
}

proof fn lemma_divisibility(y: int)
    ensures
        y % 400 == 0 ==> y % 100 == 0,
        y % 100 == 0 ==> y % 4 == 0,
{
}

#[verifier::spinoff_prover]
proof fn lemma_leap_step(y: int)
    ensures
        leap_years_before(y + 1) == leap_years_before(y) + if is_leap_year(y) { 1int } else { 0int },
{
    lemma_step_4(y);
    lemma_step_100(y);
    lemma_step_400(y);
    lemma_divisibility(y);
}

/// The first day of year `y + 1` comes a year-length after that of `y`.
pub proof fn lemma_year_step(y: int)
    ensures
        day_number(y + 1, 1, 1) == day_number(y, 1, 1) + 365 + if is_leap_year(y) { 1int } else { 0int },
{
    lemma_leap_step(y);
}

proof fn lemma_year_start_monotone(a: int, b: int)
    requires
        a <= b,
    ensures
        day_number(a, 1, 1) + 365 * (b - a) <= day_number(b, 1, 1),
    decreases b - a,
{
    if a < b {
        lemma_year_start_monotone(a, b - 1);
        lemma_year_step(b - 1);
    }
}

/// Within a year, a date's day count lies in that year's range.
proof fn lemma_within_year(y: int, m: int, d: int)
    requires
        1 <= m <= 12,
        1 <= d <= month_length(y, m),
    ensures
        day_number(y, 1, 1) <= day_number(y, m, d) < day_number(y + 1, 1, 1),
{
    lemma_year_step(y);
}

/// Dates in lexicographic order have increasing day counts.
pub proof fn lemma_day_number_increasing(a: CivilDate, b: CivilDate)
    requires
        valid_date(a),
        valid_date(b),
        date_before(a, b),
    ensures
        date_day_number(a) < date_day_number(b),
{
    let (ya, ma, da) = (a.year as int, a.month as int, a.day as int);
    let (yb, mb, db) = (b.year as int, b.month as int, b.day as int);
    if ya < yb {
        lemma_within_year(ya, ma, da);
        lemma_within_year(yb, mb, db);
        lemma_year_start_monotone(ya + 1, yb);
    } else if ma < mb {
        assert(days_before_month(ya, ma) + month_length(ya, ma) <= days_before_month(ya, mb));
    }
}

/// Two valid dates with the same day count are the same date.
pub proof fn lemma_day_number_injective(a: CivilDate, b: CivilDate)
    requires
        valid_date(a),
        valid_date(b),
        date_day_number(a) == date_day_number(b),
    ensures
        a == b,
{
    if date_before(a, b) {
        lemma_day_number_increasing(a, b);
    } else if date_before(b, a) {
        lemma_day_number_increasing(b, a);
    }
}


/// Whether `year` is a leap year.
pub fn is_leap_exec(year: i32) -> (r: bool)
    ensures
        r == is_leap_year(year as int),
{
    // shifted by whole 400-year cycles to keep the remainders non-negative
    let s: i64 = year as i64 + 4_000_000_000;
    assert(s % 4 == year % 4 && s % 100 == year % 100 && s % 400 == year % 400);
    s % 4 == 0 && (s % 100 != 0 || s % 400 == 0)
}

/// Whether the date exists (what `NaiveDate::from_ymd_opt(..).is_some()` tells).
pub fn is_valid_date(year: i32, month: u32, day: u32) -> (r: bool)
    ensures
        r == date_exists(year as int, month as int, day as int),
{
    MIN_YEAR <= year && year <= MAX_YEAR && 1 <= month && month <= 12 && 1 <= day && day
        <= days_of_month(year, month)
}

/// The number of days in month `month` of `year` (0 outside 1 to 12).
pub fn days_of_month(year: i32, month: u32) -> (r: u32)
    ensures
        r == month_length(year as int, month as int),
{
    if month == 2 {
        if is_leap_exec(year) {
            29
        } else {
            28
        }
    } else if month == 4 || month == 6 || month == 9 || month == 11 {
        30
    } else if 1 <= month && month <= 12 {
        31
    } else {
        0
    }
}

/// Whether `a` comes before `b` in the calendar.
pub fn is_date_before(a: CivilDate, b: CivilDate) -> (r: bool)
    ensures
        r == date_before(a, b),
{
    a.year < b.year || (a.year == b.year && a.month < b.month) || (a.year == b.year && a.month
        == b.month && a.day < b.day)
}

/// What `NaiveDateTime::parse_from_str(s, "%Y-%m-%d %H:%M")` gives for `s`,
/// as a civil date-time.
pub uninterp spec fn parsed_date_time(s: Seq<char>) -> Option<CivilDateTime>;

/// `NaiveDateTime::parse_from_str` with the format `%Y-%m-%d %H:%M`. The
/// contract names the result and says that a parsed value is a real date
/// and time; chrono's parsing rules are not written out.
#[verifier::external_body]
pub(crate) fn parse_date_time_minutes(s: &str) -> (r: Option<CivilDateTime>)
    ensures
        r == parsed_date_time(s@),
        r matches Some(dt) ==> valid_date_time(dt),
{
    chrono::NaiveDateTime::parse_from_str(s, "%Y-%m-%d %H:%M").ok().map(|n| CivilDateTime {
        date: CivilDate { year: n.year(), month: n.month(), day: n.day() },
        hour: n.hour(),
        minute: n.minute(),
        second: n.second(),
    })
}

/// What `NaiveTime::parse_from_str(s, "%H:%M")` gives for `s`, as hour and minute.
pub uninterp spec fn parsed_hour_minute(s: Seq<char>) -> Option<(u32, u32)>;

/// `NaiveTime::parse_from_str` with the format `%H:%M`. The contract names
/// the result and says that a parsed value is a real time of day.
#[verifier::external_body]
pub(crate) fn parse_hour_minute(s: &str) -> (r: Option<(u32, u32)>)
    ensures
        r == parsed_hour_minute(s@),
        r matches Some(hm) ==> hm.0 < 24 && hm.1 < 60,
{
    chrono::NaiveTime::parse_from_str(s, "%H:%M").ok().map(|t| (t.hour(), t.minute()))
}

/// `NaiveDate + TimeDelta::days(days)`: the date `days` days later (earlier
/// for a negative count). The operator panics when the result leaves
/// chrono's range, which `requires` rules out.
#[verifier::external_body]
pub(crate) fn add_days(d: CivilDate, days: i64) -> (r: CivilDate)
    requires
        valid_date(d),
        first_day_number() <= date_day_number(d) + days <= last_day_number(),
    ensures
        valid_date(r),
        date_day_number(r) == date_day_number(d) + days,
{
    let n = chrono::NaiveDate::from_ymd_opt(d.year, d.month, d.day).unwrap();
    let m = n + chrono::Duration::days(days);
    CivilDate { year: m.year(), month: m.month(), day: m.day() }
}

/// An instant that chrono's `DateTime` can hold lies within 10^13 seconds
/// of the epoch: its UTC date is in years -262143 to 262142.
pub open spec fn instant_in_range(t: i64) -> bool {
    -10_000_000_000_000 <= t <= 10_000_000_000_000
}

/// The seconds from 1970-01-01 00:00:00 to `dt`, read as a UTC time.
pub open spec fn unix_seconds(dt: CivilDateTime) -> int {
    (date_day_number(dt.date) - day_number(1970, 1, 1)) * 86400 + dt.hour * 3600 + dt.minute * 60
        + dt.second
}

/// The seconds from 1970-01-01 00:00:00 UTC to the start of day number `n`.
pub open spec fn day_start_seconds(n: int) -> int {
    (n - day_number(1970, 1, 1)) * 86400
}

/// Two second counts less than a day apart: what a local time and the UTC
/// time of the same instant are, since a time zone's offset is less than a
/// day.
pub open spec fn within_a_day(a: int, b: int) -> bool {
    -86400 < a - b < 86400
}

/// Timestamps far enough inside chrono's range that their local date and
/// time, in any time zone, is a date chrono holds.
pub open spec fn convertible_instant(ts: int) -> bool {
    -8_000_000_000_000 <= ts <= 8_000_000_000_000
}

/// `Local.from_local_datetime(..)`: the instants at which the local clock
/// shows `dt`, as Unix timestamps. Which instants they are depends on the
/// machine's time zone, whose offset chrono keeps under a day; the contract
/// states that each instant is one that a `DateTime` can hold and lies
/// within a day of `dt` read as UTC. Whether the clock skips or repeats
/// `dt` is left unsaid.
#[verifier::external_body]
pub(crate) fn local_instants(dt: CivilDateTime) -> (r: LocalTime)
    requires
        valid_date_time(dt),
    ensures
        match r {
            LocalTime::Gap => true,
            LocalTime::Single(t) => instant_in_range(t) && within_a_day(t as int, unix_seconds(dt)),
            LocalTime::Ambiguous(a, b) => instant_in_range(a) && instant_in_range(b)
                && within_a_day(a as int, unix_seconds(dt)) && within_a_day(b as int, unix_seconds(dt)),
        },
{
    let naive = chrono::NaiveDate::from_ymd_opt(dt.date.year, dt.date.month, dt.date.day)
        .unwrap()
        .and_hms_opt(dt.hour, dt.minute, dt.second)
        .unwrap();
    match chrono::Local.from_local_datetime(&naive) {
        chrono::LocalResult::None => LocalTime::Gap,
        chrono::LocalResult::Single(t) => LocalTime::Single(t.timestamp()),
        chrono::LocalResult::Ambiguous(a, b) => LocalTime::Ambiguous(a.timestamp(), b.timestamp()),
    }
}

/// `Local.timestamp_opt(ts, 0).single()`: the local date and time of a Unix
/// timestamp. chrono gives exactly one for every timestamp it can hold,
/// adding the machine's time-zone offset, which is under a day. The
/// contract states that a timestamp well inside that range gives a real
/// date and time within a day of the timestamp; which one depends on the
/// time zone and is left unsaid. Near the ends of the range the local date
/// may lie one day past chrono's dates; a result whose date is a real one
/// is always within a day of the timestamp.
#[verifier::external_body]
pub(crate) fn local_date_time_of(ts: i64) -> (r: Option<CivilDateTime>)
    ensures
        r is Some || !convertible_instant(ts as int),
        r matches Some(dt) ==> (valid_date_time(dt) && within_a_day(unix_seconds(dt), ts as int))
            || !convertible_instant(ts as int),
        r matches Some(dt) ==> valid_time(dt.hour as int, dt.minute as int, dt.second as int) && (
        valid_date(dt.date) ==> within_a_day(unix_seconds(dt), ts as int)),
{
    chrono::Local.timestamp_opt(ts, 0).single().map(|t| CivilDateTime {
        date: CivilDate { year: t.year(), month: t.month(), day: t.day() },
        hour: t.hour(),
        minute: t.minute(),
        second: t.second(),
    })
}

/// `Local::now().date_naive()`: today's local date. It depends on the clock
/// and the time zone; the contract states only that it is a real date.
#[verifier::external_body]
pub(crate) fn local_today() -> (r: CivilDate)
    ensures
        valid_date(r),
{
    let t = chrono::Local::now().date_naive();
    CivilDate { year: t.year(), month: t.month(), day: t.day() }
}

proof fn lemma_epoch_day()
    ensures
        day_number(1970, 1, 1) == 719528,
{
    assert(leap_years_before(1970) == 478);
}

proof fn lemma_mod_shift(a: int, k: int)
    requires
        a + 7 * k >= 0,
    ensures
        (a + 7 * k) % 7 == a % 7,
{
    assert((a + 7 * k) % 7 == a % 7) by (nonlinear_arith);
}

/// Valid dates have day counts in chrono's range.
proof fn lemma_valid_day_range(d: CivilDate)
    requires
        valid_date(d),
    ensures
        first_day_number() <= date_day_number(d) <= last_day_number(),
        first_day_number() == -95745764,
        last_day_number() == 95745764,
{
    assert(leap_years_before(MIN_YEAR as int) == -63569);
    assert(leap_years_before(MAX_YEAR as int) == 63570);
    let first = CivilDate { year: MIN_YEAR, month: 1, day: 1 };
    let last = CivilDate { year: MAX_YEAR, month: 12, day: 31 };
    if date_before(d, first) {
    } else if d != first {
        lemma_day_number_increasing(first, d);
    }
    if date_before(last, d) {
    } else if d != last {
        lemma_day_number_increasing(d, last);
    }
}

fn leaps_before_exec(y: i64) -> (r: i64)
    requires
        MIN_YEAR <= y <= MAX_YEAR,
    ensures
        r == leap_years_before(y as int),
{
    // shift by whole 400-year cycles so that the divisions see non-negative numbers
    let s = y + 400000;
    let r = (s + 3) / 4 - (s + 99) / 100 + (s + 399) / 400 - 97000;
    assert((y + 400000 + 3) / 4 == (y + 3) / 4 + 100000);
    assert((y + 400000 + 99) / 100 == (y + 99) / 100 + 4000);
    assert((y + 400000 + 399) / 400 == (y + 399) / 400 + 1000);
    r
}

fn days_before_exec(year: i32, m: u32) -> (r: i64)
    ensures
        r == days_before_month(year as int, m as int),
{
    let leap = is_leap_exec(year);
    let base: i64 = if m <= 1 { 0 } else if m == 2 { 31 } else if m == 3 { 59 } else if m == 4 { 90 }
        else if m == 5 { 120 } else if m == 6 { 151 } else if m == 7 { 181 } else if m == 8 { 212 }
        else if m == 9 { 243 } else if m == 10 { 273 } else if m == 11 { 304 } else { 334 };
    if m > 2 && leap { base + 1 } else { base }
}

/// Valid dates have day counts in chrono's range.
pub proof fn lemma_valid_day_range_pub(d: CivilDate)
    requires
        valid_date(d),
    ensures
        first_day_number() <= date_day_number(d) <= last_day_number(),
{
    lemma_valid_day_range(d);
}

/// The day count of a valid date, as a machine integer.
pub fn day_count(d: CivilDate) -> (r: i64)
    requires
        valid_date(d),
    ensures
        r == date_day_number(d),
{
    let y = d.year as i64;
    let leaps = leaps_before_exec(y);
    let before = days_before_exec(d.year, d.month);
    proof {
        lemma_valid_day_range(d);
    }
    365 * y + leaps + before + d.day as i64 - 1
}

/// The day of the week of a valid date, from Monday (0) to Sunday (6).
pub fn weekday_index(d: CivilDate) -> (r: u32)
    requires
        valid_date(d),
    ensures
        r == weekday_from_monday(d),
        r < 7,
{
    let n = day_count(d);
    proof {
        lemma_epoch_day();
        lemma_valid_day_range(d);
    }
    // keep the operand non-negative: the earliest date is about 95.7 million days before 1970
    let shifted = n - 719528 + 3 + 7 * 20_000_000;
    let r = (shifted % 7) as u32;
    proof {
        lemma_mod_shift(n - 719528 + 3, 20_000_000);
    }
    r
}

/// `d` formatted as `chrono` formats `%Y`: four digits, zero-padded, for
/// years 0 to 9999, otherwise a sign and at least four digits.
pub open spec fn year_text(y: int) -> Seq<char> {
    if 0 <= y <= 9999 {
        pad_left_seq(decimal_nat(y as nat), '0', 4)
    } else if y < 0 {
        seq!['-'] + pad_left_seq(decimal_nat((-y) as nat), '0', 4)
    } else {
        seq!['+'] + pad_left_seq(decimal_nat(y as nat), '0', 4)
    }
}

/// A two-digit, zero-padded number, as `%m`, `%d`, `%H` and `%M` write one.
pub open spec fn two_digits(n: int) -> Seq<char> {
    pad_left_seq(decimal_nat(n as nat), '0', 2)
}

/// A date as `%Y-%m-%d` writes it.
pub open spec fn date_text(d: CivilDate) -> Seq<char> {
    year_text(d.year as int) + seq!['-'] + two_digits(d.month as int) + seq!['-'] + two_digits(
        d.day as int,
    )
}

/// A time of day as `%H:%M` writes it.
pub open spec fn hour_minute_text(h: int, m: int) -> Seq<char> {
    two_digits(h) + seq![':'] + two_digits(m)
}

/// A date and time as `%Y-%m-%d %H:%M` writes it.
pub open spec fn date_time_text(dt: CivilDateTime) -> Seq<char> {
    date_text(dt.date) + seq![' '] + hour_minute_text(dt.hour as int, dt.minute as int)
}


/// The `%Y` text of a year.
pub fn year_chars(y: i32) -> (r: Vec<char>)
    ensures
        r@ == year_text(y as int),
{
    if 0 <= y && y <= 9999 {
        pad_left(&u64_digits(y as u64), '0', 4)
    } else {
        let (sign, magnitude): (char, u64) = if y < 0 {
            ('-', (-(y as i64)) as u64)
        } else {
            ('+', y as u64)
        };
        let digits = pad_left(&u64_digits(magnitude), '0', 4);
        let mut r: Vec<char> = Vec::new();
        r.push(sign);
        let mut i: usize = 0;
        while i < digits.len()
            invariant
                i <= digits.len(),
                r@ == seq![sign] + digits@.take(i as int),
            decreases digits.len() - i,
        {
            r.push(digits[i]);
            i = i + 1;
            assert(r@ =~= seq![sign] + digits@.take(i as int));
        }
        assert(digits@.take(digits@.len() as int) =~= digits@);
        r
    }
}

/// A number below 100 as two zero-padded digits.
pub fn two_digit_chars(n: u32) -> (r: Vec<char>)
    ensures
        r@ == two_digits(n as int),
{
    pad_left(&u64_digits(n as u64), '0', 2)
}

fn push_all(r: &mut Vec<char>, t: &Vec<char>)
    ensures
        final(r)@ == old(r)@ + t@,
{
    let mut i: usize = 0;
    while i < t.len()
        invariant
            i <= t.len(),
            r@ == old(r)@ + t@.take(i as int),
        decreases t.len() - i,
    {
        r.push(t[i]);
        i = i + 1;
        assert(r@ =~= old(r)@ + t@.take(i as int));
    }
    assert(t@.take(t@.len() as int) =~= t@);
}

/// The `%Y-%m-%d` text of a date.
pub fn date_chars(d: CivilDate) -> (r: Vec<char>)
    ensures
        r@ == date_text(d),
{
    let mut r = year_chars(d.year);
    r.push('-');
    push_all(&mut r, &two_digit_chars(d.month));
    r.push('-');
    push_all(&mut r, &two_digit_chars(d.day));
    r
}

/// The `%H:%M` text of a time of day.
pub fn hour_minute_chars(h: u32, m: u32) -> (r: Vec<char>)
    ensures
        r@ == hour_minute_text(h as int, m as int),
{
    let mut r = two_digit_chars(h);
    r.push(':');
    push_all(&mut r, &two_digit_chars(m));
    r
}

/// A date and time formatted as `%Y-%m-%d %H:%M`.
pub fn format_date_time(dt: CivilDateTime) -> (r: String)
    ensures
        r@ == date_time_text(dt),
{
    let mut r = date_chars(dt.date);
    r.push(' ');
    push_all(&mut r, &hour_minute_chars(dt.hour, dt.minute));
    string_from_chars(&r)
}

/// A date formatted as `%Y-%m-%d`.
pub fn format_date(d: CivilDate) -> (r: String)
    ensures
        r@ == date_text(d),
{
    string_from_chars(&date_chars(d))
}

} // verus!
