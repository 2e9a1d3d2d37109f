//! The date picker of the add/edit form.
use vstd::prelude::*;
use crate::civil::{
    CivilDate, add_days, date_before, date_day_number, date_exists, days_of_month, first_day_number,
    is_date_before, is_valid_date, last_day_number, local_today, month_length, valid_date,
    MAX_YEAR, MIN_YEAR,
};
use crate::task::{last_day_of_month, last_day_spec};

verus! {

/// Which form field the picked date goes to.
#[derive(Debug, Clone, Copy, PartialEq, Eq, Structural)]
pub enum CalendarTarget {
    Deadline,
    Reminder,
}

/// The date the picker shows as selected.
#[derive(Debug, Clone, Copy, PartialEq, Eq, Structural)]
pub struct CalendarState {
    pub selected_day: u32,
    pub selected_month: u32,
    pub selected_year: i32,
}

/// The later of a date and today: the picker never shows a past date.
pub open spec fn not_before(d: CivilDate, today: CivilDate) -> CivilDate {
    if date_before(d, today) { today } else { d }
}

/// The year and month `delta` months after year `y`, month `m`.
pub open spec fn month_shift(y: int, m: int, delta: int) -> (int, int) {
    let total = y * 12 + m - 1 + delta;
    (total / 12, total % 12 + 1)
}

/// The number of days in a month as the picker computes it (the day before
/// the first of the next month).
pub open spec fn picker_month_days(year: int, month: int) -> int {
    if month == 0 { 31 } else { month_length(year, month) }
}

/// Whether the picker can compute the length of the month: the first day
/// of the next month exists and is not chrono's earliest date.
pub open spec fn month_days_computable(year: int, month: int) -> bool {
    &&& month < u32::MAX
    &&& month == 12 ==> year < i32::MAX && date_exists(year + 1, 1, 1) && year + 1 != MIN_YEAR
    &&& month != 12 ==> date_exists(year, month + 1, 1) && !(month == 0 && year == MIN_YEAR)
}

/// The picker never selects a day before today: the date it keeps is today
/// or the date it was given, and it keeps the given date whenever that is
/// not in the past.
pub proof fn lemma_not_before(d: CivilDate, today: CivilDate)
    ensures
        !date_before(not_before(d, today), today),
        not_before(d, today) == d || not_before(d, today) == today,
        !date_before(d, today) ==> not_before(d, today) == d,
{
}

/// Paging through months adds up: `a` months and then `b` months on is
/// `a + b` months on, and the month is always one of the twelve.
pub proof fn lemma_month_shift_adds(y: int, m: int, a: int, b: int)
    requires
        1 <= m <= 12,
    ensures
        1 <= month_shift(y, m, a).1 <= 12,
        month_shift(month_shift(y, m, a).0, month_shift(y, m, a).1, b) == month_shift(y, m, a + b),
{
    let total = y * 12 + m - 1 + a;
    let (y1, m1) = month_shift(y, m, a);
    assert(y1 * 12 + m1 - 1 == total) by (nonlinear_arith)
        requires
            y1 == total / 12,
            m1 == total % 12 + 1,
    ;
}

impl CalendarState {
    pub open spec fn date(&self) -> CivilDate {
        CivilDate { year: self.selected_year, month: self.selected_month, day: self.selected_day }
    }

    /// The selected date exists.
    pub open spec fn wf(&self) -> bool {
        valid_date(self.date())
    }

    pub fn from_date(d: CivilDate) -> (r: CalendarState)
        ensures
            r.date() == d,
    {
        CalendarState { selected_day: d.day, selected_month: d.month, selected_year: d.year }
    }

    /// The picker on today's local date.
    pub fn today() -> (r: CalendarState)
        ensures
            r.wf(),
    {
        CalendarState::from_date(local_today())
    }

    pub fn selected_date(&self) -> (r: CivilDate)
        requires
            self.wf(),
        ensures
            r == self.date(),
            valid_date(r),
    {
        CivilDate { year: self.selected_year, month: self.selected_month, day: self.selected_day }
    }

    fn set_date(&mut self, date: CivilDate)
        ensures
            final(self).date() == date,
    {
        self.selected_day = date.day;
        self.selected_month = date.month;
        self.selected_year = date.year;
    }

    /// Moves the selection back to `today` when it lies before it.
    pub fn clamp_to(&mut self, today: CivilDate)
        requires
            old(self).wf(),
            valid_date(today),
        ensures
            final(self).date() == not_before(old(self).date(), today),
            final(self).wf(),
    {
        if is_date_before(self.selected_date(), today) {
            self.set_date(today);
        }
    }

    /// Moves the selection by `delta` days, then no earlier than `today`.
    pub fn move_days_from(&mut self, delta: i64, today: CivilDate)
        requires
            old(self).wf(),
            valid_date(today),
            first_day_number() <= date_day_number(old(self).date()) + delta <= last_day_number(),
        ensures
            final(self).wf(),
            exists|moved: CivilDate|
                valid_date(moved) && date_day_number(moved) == date_day_number(old(self).date())
                    + delta && final(self).date() == not_before(moved, today),
    {
        let date = add_days(self.selected_date(), delta);
        self.set_date(date);
        self.clamp_to(today);
    }

    /// Moves the selection by `delta` days (arrow keys), then no earlier
    /// than today.
    pub fn move_days(&mut self, delta: i64)
        requires
            old(self).wf(),
            first_day_number() <= date_day_number(old(self).date()) + delta <= last_day_number(),
        ensures
            final(self).wf(),
            exists|moved: CivilDate|
                valid_date(moved) && date_day_number(moved) == date_day_number(old(self).date())
                    + delta && (final(self).date() == moved || date_before(moved, final(self).date())),
    {
        let today = local_today();
        self.move_days_from(delta, today);
    }

    /// The date `delta` months on: same day, cut to the month's length.
    pub open spec fn months_on(&self, delta: int) -> CivilDate {
        let (y, m) = month_shift(self.selected_year as int, self.selected_month as int, delta);
        let days = picker_month_days(y, m);
        let day = if self.selected_day < days { self.selected_day as int } else { days };
        CivilDate { year: y as i32, month: m as u32, day: day as u32 }
    }

    /// Whether moving by `delta` months stays where chrono can compute and
    /// hold the dates.
    pub open spec fn months_movable(&self, delta: int) -> bool {
        let (y, m) = month_shift(self.selected_year as int, self.selected_month as int, delta);
        &&& self.selected_month + delta <= i32::MAX
        &&& month_days_computable(y, m)
        &&& valid_date(self.months_on(delta))
    }

    /// Whether the length of the selected month can be computed (what the
    /// month grid needs), computed.
    pub fn month_days_known(&self) -> (r: bool)
        ensures
            r == month_days_computable(self.selected_year as int, self.selected_month as int),
    {
        let y = self.selected_year;
        let m = self.selected_month;
        if m == u32::MAX {
            false
        } else if m == 12 {
            y < MAX_YEAR && is_valid_date(y + 1, 1, 1) && y + 1 != MIN_YEAR
        } else {
            is_valid_date(y, m + 1, 1) && !(m == 0 && y == MIN_YEAR)
        }
    }

    /// Whether moving by `delta` months keeps the picker within chrono's
    /// range, computed.
    pub fn can_move_months(&self, delta: i32) -> (r: bool)
        requires
            self.wf(),
            -12 <= delta <= 12,
        ensures
            r == self.months_movable(delta as int),
    {
        let total: i64 = self.selected_year as i64 * 12 + self.selected_month as i64 - 1 + delta as i64;
        // offset by whole years to keep the division on non-negative numbers
        let shifted: i64 = total + 12_000_000_000;
        let year: i64 = shifted / 12 - 1_000_000_000;
        let month: i64 = shifted % 12 + 1;
        assert(year == total as int / 12 && month == total as int % 12 + 1);
        if year < MIN_YEAR as i64 || year > MAX_YEAR as i64 {
            return false;
        }
        let y = year as i32;
        let m = month as u32;
        let computable = if m == 12 {
            y < MAX_YEAR && is_valid_date(y + 1, 1, 1) && y + 1 != MIN_YEAR
        } else {
            is_valid_date(y, m + 1, 1)
        };
        if !computable {
            return false;
        }
        let days = days_of_month(y, m);
        let day = if self.selected_day < days { self.selected_day } else { days };
        is_valid_date(y, m, day)
    }

    /// Moves the selection by `delta` months, then to today's date when it
    /// lies before it, given today.
    pub fn move_months_from(&mut self, delta: i32, today: CivilDate)
        requires
            old(self).wf(),
            valid_date(today),
            old(self).months_movable(delta as int),
        ensures
            final(self).wf(),
            final(self).date() == not_before(old(self).months_on(delta as int), today),
    {
        let d = self.shifted_months(delta);
        self.set_date(d);
        self.clamp_to(today);
    }

    /// Moves the selection by `delta` months (page keys), then no earlier
    /// than today.
    pub fn move_months(&mut self, delta: i32)
        requires
            old(self).wf(),
            old(self).months_movable(delta as int),
        ensures
            final(self).wf(),
            final(self).date() == old(self).months_on(delta as int) || date_before(
                old(self).months_on(delta as int),
                final(self).date(),
            ),
    {
        let today = local_today();
        self.move_months_from(delta, today);
    }

    fn shifted_months(&self, delta: i32) -> (r: CivilDate)
        requires
            self.wf(),
            self.months_movable(delta as int),
        ensures
            r == self.months_on(delta as int),
            valid_date(r),
    {
        let mut year = self.selected_year;
        let mut month = self.selected_month as i32 + delta;
        let ghost total = self.selected_year * 12 + self.selected_month - 1 + delta;
        while month > 12
            invariant
                year * 12 + month - 1 == total,
                MIN_YEAR <= year <= MAX_YEAR,
                MIN_YEAR <= total / 12 <= MAX_YEAR,
                month <= i32::MAX,
            decreases month,
        {
            month = month - 12;
            year = year + 1;
        }
        while month < 1
            invariant
                year * 12 + month - 1 == total,
                MIN_YEAR <= year <= MAX_YEAR,
                MIN_YEAR <= total / 12 <= MAX_YEAR,
                month <= 12,
            decreases 12 - month,
        {
            month = month + 12;
            year = year - 1;
        }
        assert(year == total / 12 && month == total % 12 + 1);
        let month_u32 = month as u32;
        let days = days_in_month(year, month_u32);
        let day = if self.selected_day < days { self.selected_day } else { days };
        CivilDate { year: year, month: month_u32, day: day }
    }
}

/// The number of days in a month: the day before the first of the next
/// month. Month 0 counts as the December before.
pub fn days_in_month(year: i32, month: u32) -> (r: u32)
    requires
        month_days_computable(year as int, month as int),
    ensures
        r == picker_month_days(year as int, month as int),
{
    match last_day_of_month(year, month) {
        Some(d) => d,
        None => 0,
    }
}

pub open spec fn month_name_text(month: int) -> Seq<char> {
    if month == 1 { "January"@ }
    else if month == 2 { "February"@ }
    else if month == 3 { "March"@ }
    else if month == 4 { "April"@ }
    else if month == 5 { "May"@ }
    else if month == 6 { "June"@ }
    else if month == 7 { "July"@ }
    else if month == 8 { "August"@ }
    else if month == 9 { "September"@ }
    else if month == 10 { "October"@ }
    else if month == 11 { "November"@ }
    else if month == 12 { "December"@ }
    else { ""@ }
}

pub fn month_name(month: u32) -> (r: &'static str)
    ensures
        r@ == month_name_text(month as int),
{
    match month {
        1 => "January",
        2 => "February",
        3 => "March",
        4 => "April",
        5 => "May",
        6 => "June",
        7 => "July",
        8 => "August",
        9 => "September",
        10 => "October",
        11 => "November",
        12 => "December",
        _ => "",
    }
}

} // verus!
