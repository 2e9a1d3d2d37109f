//! Tasks, their status and priority, and the date-time handling of
//! deadlines, reminders and recurrence.
use vstd::prelude::*;
use vstd::string::StringExecFns;
use crate::civil::{
    instant_in_range, convertible_instant, unix_seconds, within_a_day,
    CivilDate, CivilDateTime, LocalTime, MIN_YEAR, MAX_YEAR, add_days, date_day_number,
    date_exists, date_time_text, day_number, first_day_number, format_date_time, is_valid_date,
    lemma_day_number_increasing, lemma_day_number_injective, local_date_time_of, local_instants,
    month_length, parse_date_time_minutes, parsed_date_time, valid_date, valid_date_time,
};

verus! {

/// Where a task stands on the board.
#[derive(Debug, Clone, Copy, PartialEq, Eq, Structural)]
pub enum Status {
    Todo,
    InProgress,
    Done,
}

/// A task as stored: priority 0 (low) to 4 (very high), deadline and
/// reminder as Unix timestamps.
#[derive(Debug, Clone)]
pub struct Task {
    pub id: i64,
    pub title: String,
    pub description: Option<String>,
    pub project_id: Option<i64>,
    pub status: Status,
    pub priority: i64,
    pub deadline: Option<i64>,
    pub reminder: Option<i64>,
    pub recurrence: Option<String>,
}

/// The label shown for a status.
pub open spec fn status_label_text(status: Status) -> Seq<char> {
    match status {
        Status::Todo => "Todo"@,
        Status::InProgress => "In Progress"@,
        Status::Done => "Done"@,
    }
}

/// The text that stores a status.
pub open spec fn status_db_text(status: Status) -> Seq<char> {
    match status {
        Status::Todo => "TODO"@,
        Status::InProgress => "IN_PROGRESS"@,
        Status::Done => "DONE"@,
    }
}

/// The status that a stored text stands for; anything unknown is `Todo`.
pub open spec fn status_of_db_text(value: Option<Seq<char>>) -> Status {
    match value {
        Some(v) => if v == "IN_PROGRESS"@ {
            Status::InProgress
        } else if v == "DONE"@ {
            Status::Done
        } else {
            Status::Todo
        },
        None => Status::Todo,
    }
}

/// The board column of a status, from left to right.
pub open spec fn column_of(status: Status) -> int {
    match status {
        Status::Todo => 0,
        Status::InProgress => 1,
        Status::Done => 2,
    }
}

/// The status of a board column; an unknown column is `Todo`.
pub open spec fn status_of_column(column: int) -> Status {
    if column == 1 {
        Status::InProgress
    } else if column == 2 {
        Status::Done
    } else {
        Status::Todo
    }
}

/// The label shown for a priority; an unknown priority reads as `Normal`.
pub open spec fn priority_label_text(priority: int) -> Seq<char> {
    if priority == 4 {
        "Very High"@
    } else if priority == 3 {
        "Medium High"@
    } else if priority == 2 {
        "High"@
    } else if priority == 0 {
        "Low"@
    } else {
        "Normal"@
    }
}

/// A priority clamped into 0 to 4.
pub open spec fn clamp_priority(priority: int) -> int {
    if priority < 0 {
        0
    } else if priority > 4 {
        4
    } else {
        priority
    }
}

pub fn status_label(status: Status) -> (r: &'static str)
    ensures
        r@ == status_label_text(status),
{
    match status {
        Status::Todo => "Todo",
        Status::InProgress => "In Progress",
        Status::Done => "Done",
    }
}

pub fn status_from_db(value: Option<String>) -> (r: Status)
    ensures
        r == status_of_db_text(
            match value {
                Some(v) => Some(v@),
                None => None,
            },
        ),
{
    match value {
        Some(v) => {
            if crate::text::str_equal(v.as_str(), "IN_PROGRESS") {
                Status::InProgress
            } else if crate::text::str_equal(v.as_str(), "DONE") {
                Status::Done
            } else {
                Status::Todo
            }
        },
        None => Status::Todo,
    }
}

pub fn status_to_db(status: Status) -> (r: &'static str)
    ensures
        r@ == status_db_text(status),
{
    match status {
        Status::Todo => "TODO",
        Status::InProgress => "IN_PROGRESS",
        Status::Done => "DONE",
    }
}

pub fn status_column(status: Status) -> (r: usize)
    ensures
        r == column_of(status),
{
    match status {
        Status::Todo => 0,
        Status::InProgress => 1,
        Status::Done => 2,
    }
}

pub fn status_from_column(column: usize) -> (r: Status)
    ensures
        r == status_of_column(column as int),
{
    match column {
        1 => Status::InProgress,
        2 => Status::Done,
        _ => Status::Todo,
    }
}

pub fn priority_label(priority: i64) -> (r: &'static str)
    ensures
        r@ == priority_label_text(priority as int),
{
    match priority {
        4 => "Very High",
        3 => "Medium High",
        2 => "High",
        1 => "Normal",
        0 => "Low",
        _ => "Normal",
    }
}

pub fn normalize_priority(priority: i64) -> (r: i64)
    ensures
        r == clamp_priority(priority as int),
{
    if priority < 0 {
        0
    } else if priority > 4 {
        4
    } else {
        priority
    }
}

/// Storing a status and reading it back gives the same status.
pub proof fn lemma_status_db_round_trip(status: Status)
    ensures
        status_of_db_text(Some(status_db_text(status))) == status,
{
    reveal_strlit("TODO");
    reveal_strlit("IN_PROGRESS");
    reveal_strlit("DONE");
    assert("TODO"@.len() != "IN_PROGRESS"@.len());
    assert("DONE"@.len() != "IN_PROGRESS"@.len());
    assert("TODO"@[0] != "DONE"@[0]);
}

/// The column of a status leads back to that status, and a column's status
/// sits in that column when the column is one of the three.
pub proof fn lemma_status_column_round_trip(status: Status, column: int)
    ensures
        status_of_column(column_of(status)) == status,
        0 <= column <= 2 ==> column_of(status_of_column(column)) == column,
        0 <= column_of(status) <= 2,
{
}

/// A clamped priority lies in 0 to 4, is unchanged when it already did, and
/// clamping twice is clamping once.
pub proof fn lemma_clamp_priority(priority: int)
    ensures
        0 <= clamp_priority(priority) <= 4,
        0 <= priority <= 4 ==> clamp_priority(priority) == priority,
        clamp_priority(clamp_priority(priority)) == clamp_priority(priority),
{
}


/// The message for an input that is not a `YYYY-MM-DD HH:MM` date-time.
pub open spec fn invalid_datetime_message(input: Seq<char>) -> Seq<char> {
    "Invalid datetime: "@ + input + " (expected YYYY-MM-DD HH:MM)"@
}

/// The message for a local time that the clock skips or shows twice.
pub open spec fn ambiguous_time_message(input: Seq<char>) -> Seq<char> {
    "Invalid or ambiguous local time: "@ + input
}

/// The timestamp of a parsed input, accepted only when the local clock shows
/// that time exactly once.
pub fn single_instant_or_error(input: &str, instants: LocalTime) -> (r: Result<i64, String>)
    ensures
        match instants {
            LocalTime::Single(t) => r == Ok::<i64, String>(t),
            _ => r matches Err(e) && e@ == ambiguous_time_message(input@),
        },
{
    match instants {
        LocalTime::Single(t) => Ok(t),
        _ => {
            let mut m = "Invalid or ambiguous local time: ".to_owned();
            m.append(input);
            Err(m)
        },
    }
}

/// Reads a local date-time in the format `YYYY-MM-DD HH:MM` and gives its
/// Unix timestamp.
pub fn parse_datetime_local(input: &str) -> (r: Result<i64, String>)
    ensures
        parsed_date_time(input@) is None ==> (r matches Err(e) && e@ == invalid_datetime_message(
            input@,
        )),
        parsed_date_time(input@) is Some ==> (r is Ok || (r matches Err(e) && e@
            == ambiguous_time_message(input@))),
        r matches Ok(t) ==> instant_in_range(t) && within_a_day(
            t as int,
            unix_seconds(parsed_date_time(input@)->0),
        ),
{
    match parse_date_time_minutes(input) {
        None => {
            let mut m = "Invalid datetime: ".to_owned();
            m.append(input);
            m.append(" (expected YYYY-MM-DD HH:MM)");
            Err(m)
        },
        Some(dt) => single_instant_or_error(input, local_instants(dt)),
    }
}

/// The text shown for an optional local date-time: `%Y-%m-%d %H:%M`, or `-`.
pub fn date_time_label(dt: Option<CivilDateTime>) -> (r: String)
    ensures
        r@ == match dt {
            Some(d) => date_time_text(d),
            None => "-"@,
        },
{
    match dt {
        Some(d) => format_date_time(d),
        None => "-".to_owned(),
    }
}

/// Whether `text` is what is shown for an optional timestamp: `-` for
/// none; for a timestamp well inside chrono's range, the
/// `YYYY-MM-DD HH:MM` of a real local date-time within a day of it (which
/// one depends on the time zone); near the ends of the range, `-` or the
/// text of some date-time.
pub open spec fn shown_datetime(ts: Option<i64>, text: Seq<char>) -> bool {
    match ts {
        None => text == "-"@,
        Some(v) => if convertible_instant(v as int) {
            exists|dt: CivilDateTime|
                valid_date_time(dt) && within_a_day(#[trigger] unix_seconds(dt), v as int) && text
                    == date_time_text(dt)
        } else {
            text == "-"@ || exists|dt: CivilDateTime| text == #[trigger] date_time_text(dt)
        },
    }
}

/// The local date and time of an optional timestamp as `YYYY-MM-DD HH:MM`,
/// or `-` when there is none.
pub fn format_datetime(ts: Option<i64>) -> (r: String)
    ensures
        shown_datetime(ts, r@),
{
    match ts {
        Some(value) => date_time_label(local_date_time_of(value)),
        None => "-".to_owned(),
    }
}

/// The last day of month `month` of `year`, as `chrono` finds it: the day
/// before the first of the next month; `None` when that first day does not
/// exist.
pub open spec fn last_day_spec(year: int, month: int) -> Option<int> {
    if month == 12 {
        if date_exists(year + 1, 1, 1) { Some(31int) } else { None }
    } else if date_exists(year, month + 1, 1) {
        if month == 0 { Some(31int) } else { Some(month_length(year, month)) }
    } else {
        None
    }
}

proof fn lemma_month_end(y: int, m: int)
    requires
        1 <= m <= 11,
    ensures
        day_number(y, m, month_length(y, m)) + 1 == day_number(y, m + 1, 1),
{
}

pub fn last_day_of_month(year: i32, month: u32) -> (r: Option<u32>)
    requires
        month < u32::MAX,
        month == 12 ==> year < i32::MAX,
        !(month == 12 && year + 1 == MIN_YEAR),
        !(month == 0 && year == MIN_YEAR),
    ensures
        r == match last_day_spec(year as int, month as int) {
            Some(d) => Some(d as u32),
            None => None::<u32>,
        },
{
    let next = if month == 12 {
        if !is_valid_date(year + 1, 1, 1) {
            return None;
        }
        CivilDate { year: year + 1, month: 1, day: 1 }
    } else {
        if !is_valid_date(year, month + 1, 1) {
            return None;
        }
        CivilDate { year: year, month: month + 1, day: 1 }
    };
    let ghost first = CivilDate { year: MIN_YEAR, month: 1, day: 1 };
    let ghost expected = if month == 12 {
        CivilDate { year: year, month: 12, day: 31 }
    } else if month == 0 {
        CivilDate { year: (year - 1) as i32, month: 12, day: 31 }
    } else {
        CivilDate { year: year, month: month, day: month_length(year as int, month as int) as u32 }
    };
    proof {
        lemma_day_number_increasing(first, next);
        crate::civil::lemma_year_step(year as int);
        crate::civil::lemma_year_step(year - 1);
        if 1 <= month <= 11 {
            lemma_month_end(year as int, month as int);
        }
        assert(valid_date(expected));
        assert(date_day_number(expected) == date_day_number(next) - 1);
    }
    let last = add_days(next, -1);
    proof {
        lemma_day_number_injective(last, expected);
    }
    Some(last.day)
}


/// The instant that a local date-time stands for: the single one, or the
/// earlier of two when the clock shows that time twice.
pub open spec fn earliest_of(instants: LocalTime) -> Option<i64> {
    match instants {
        LocalTime::Gap => None,
        LocalTime::Single(t) => Some(t),
        LocalTime::Ambiguous(earliest, _) => Some(earliest),
    }
}

/// The single instant, else the earliest, else the latest, as chrono's
/// `single().or_else(earliest).or_else(latest)` picks it.
pub fn earliest_instant(instants: LocalTime) -> (r: Option<i64>)
    ensures
        r == earliest_of(instants),
{
    match instants {
        LocalTime::Gap => None,
        LocalTime::Single(t) => Some(t),
        LocalTime::Ambiguous(earliest, _) => Some(earliest),
    }
}

fn local_timestamp(dt: CivilDateTime) -> (r: Option<i64>)
    requires
        valid_date_time(dt),
    ensures
        r matches Some(t) ==> instant_in_range(t) && within_a_day(t as int, unix_seconds(dt)),
{
    earliest_instant(local_instants(dt))
}

/// The month count `year * 12 + month - 1 + months` of a date-time moved by
/// `months` months.
pub open spec fn month_total(dt: CivilDateTime, months: int) -> int {
    dt.date.year * 12 + dt.date.month - 1 + months
}

/// `dt` moved by `months` calendar months, with the day cut to the length
/// of the target month and the time of day kept; `None` where the target
/// month lies outside chrono's range.
pub open spec fn months_later(dt: CivilDateTime, months: int) -> Option<CivilDateTime> {
    let total = month_total(dt, months);
    let year = total / 12;
    let month = total % 12 + 1;
    match last_day_spec(year, month) {
        None => None,
        Some(last) => {
            let day = if dt.date.day < last { dt.date.day as int } else { last };
            if date_exists(year, month, day) {
                Some(
                    CivilDateTime {
                        date: CivilDate { year: year as i32, month: month as u32, day: day as u32 },
                        hour: dt.hour,
                        minute: dt.minute,
                        second: dt.second,
                    },
                )
            } else {
                None
            }
        },
    }
}

/// Moves a date-time by whole months, keeping the day where the target
/// month has it and taking the month's last day otherwise.
pub fn shift_months(dt: CivilDateTime, months: i32) -> (r: Option<CivilDateTime>)
    requires
        valid_date_time(dt),
        i32::MIN <= month_total(dt, months as int) <= i32::MAX,
        month_total(dt, months as int) != MIN_YEAR * 12 - 1,
    ensures
        r == months_later(dt, months as int),
        r matches Some(moved) ==> valid_date_time(moved),
{
    let total: i32 = dt.date.year * 12 + (dt.date.month as i32 - 1) + months;
    // offset by whole years to keep the division on non-negative numbers
    let shifted: i64 = total as i64 + 12_000_000_000;
    let new_year_wide: i64 = shifted / 12 - 1_000_000_000;
    let new_month_wide: i64 = shifted % 12 + 1;
    assert(new_year_wide == total as int / 12 && new_month_wide == total as int % 12 + 1);
    let new_year = new_year_wide as i32;
    let new_month = new_month_wide as u32;
    let last = match last_day_of_month(new_year, new_month) {
        Some(l) => l,
        None => {
            return None;
        },
    };
    let day = if dt.date.day < last { dt.date.day } else { last };
    if !is_valid_date(new_year, new_month, day) {
        return None;
    }
    Some(
        CivilDateTime {
            date: CivilDate { year: new_year, month: new_month, day: day },
            hour: dt.hour,
            minute: dt.minute,
            second: dt.second,
        },
    )
}

/// `t` is what moving the local date and time of `ts` by `months` months
/// can give in some time zone: an instant chrono holds, within a day of the
/// moved date-time read as UTC, where that is the move of a real date-time
/// within a day of `ts`.
pub open spec fn moved_by_months(ts: int, months: int, t: i64) -> bool {
    &&& instant_in_range(t)
    &&& exists|dt: CivilDateTime, moved: CivilDateTime|
        #![trigger months_later(dt, months), unix_seconds(moved)]
        {
            &&& valid_date_time(dt)
            &&& within_a_day(unix_seconds(dt), ts)
            &&& months_later(dt, months) == Some(moved)
            &&& within_a_day(t as int, unix_seconds(moved))
        }
}

/// The local date and time of `ts` moved by `months` months, as an instant
/// again. Both conversions go by the machine's time zone, so the contract
/// states what holds of any result: it is an instant that chrono can hold,
/// within a day of the moved local date-time read as UTC, where that is
/// the move of a local date-time within a day of `ts`. A local time that
/// the clock skips gives none.
fn add_months(ts: i64, months: i32) -> (r: Option<i64>)
    requires
        0 <= months <= 1_000_000,
    ensures
        r matches Some(t) ==> moved_by_months(ts as int, months as int, t),
{
    let dt = match local_date_time_of(ts) {
        Some(dt) => dt,
        None => {
            return None;
        },
    };
    // a local date past chrono's dates, near the ends of its range, cannot be moved
    if !is_valid_date(dt.date.year, dt.date.month, dt.date.day) {
        return None;
    }
    let moved = match shift_months(dt, months) {
        Some(m) => m,
        None => {
            return None;
        },
    };
    local_timestamp(moved)
}

/// The next occurrence of a task that repeats `daily`, `weekly`, `monthly`
/// or `yearly`. Days and weeks are fixed numbers of seconds; months and
/// years follow the local calendar.
pub fn next_recurrence_timestamp(ts: i64, recurrence: &str) -> (r: Option<i64>)
    requires
        recurrence@ == "daily"@ ==> ts + 86400 <= i64::MAX,
        recurrence@ == "weekly"@ ==> ts + 604800 <= i64::MAX,
    ensures
        recurrence@ == "daily"@ ==> r == Some((ts + 86400) as i64),
        recurrence@ == "weekly"@ ==> r == Some((ts + 604800) as i64),
        recurrence@ == "monthly"@ ==> (r matches Some(t) ==> moved_by_months(ts as int, 1, t)),
        recurrence@ == "yearly"@ ==> (r matches Some(t) ==> moved_by_months(ts as int, 12, t)),
        recurrence@ != "daily"@ && recurrence@ != "weekly"@ && recurrence@ != "monthly"@
            && recurrence@ != "yearly"@ ==> r is None,
{
    proof {
        reveal_strlit("daily");
        reveal_strlit("weekly");
        reveal_strlit("monthly");
        reveal_strlit("yearly");
        assert("daily"@.len() != "weekly"@.len());
        assert("monthly"@[0] != "yearly"@[0]);
    }
    if crate::text::str_equal(recurrence, "daily") {
        Some(ts + 86400)
    } else if crate::text::str_equal(recurrence, "weekly") {
        Some(ts + 604800)
    } else if crate::text::str_equal(recurrence, "monthly") {
        add_months(ts, 1)
    } else if crate::text::str_equal(recurrence, "yearly") {
        add_months(ts, 12)
    } else {
        None
    }
}

} // verus!
