//! The texts and positions that the screen shows, apart from drawing them.
use vstd::prelude::*;
use vstd::string::StringExecFns;
use crate::civil::{CivilDate, valid_date, weekday_from_monday, weekday_index};
use crate::text::{
    append_chars, decimal_int, decimal_nat, i64_digits, pad_left, pad_left_seq, repeat_char,
    string_from_chars, u64_digits,
};
use crate::tui::app::{AddField, App, Focus, Mode};
use crate::tui::calendar::{
    CalendarState, days_in_month, month_days_computable, month_name, month_name_text,
    picker_month_days,
};

verus! {

/// The title of the top bar: the shown project, and the search or the open
/// form.
pub open spec fn header_text(mode: Mode, project: Seq<char>, query: Seq<char>) -> Seq<char> {
    match mode {
        Mode::Search => "Todo ("@ + project + ") (search: "@ + query + ")"@,
        Mode::AddTask => "Todo (add task)"@,
        Mode::Calendar => "Todo (calendar)"@,
        Mode::Time => "Todo (time)"@,
        Mode::Project => "Todo (project)"@,
        Mode::Normal => "Todo ("@ + project + ")"@,
    }
}

pub fn header_title(app: &App) -> (r: String)
    ensures
        r@ == header_text(
            app.mode,
            if app.selected_project < app.projects.len() {
                app.projects[app.selected_project as int].name@
            } else {
                "All"@
            },
            app.search_query@,
        ),
{
    match app.mode {
        Mode::Search => {
            let mut s = "Todo (".to_owned();
            let name = app.active_project_name();
            s.append(name.as_str());
            s.append(") (search: ");
            s.append(app.search_query.as_str());
            s.append(")");
            s
        },
        Mode::AddTask => "Todo (add task)".to_owned(),
        Mode::Calendar => "Todo (calendar)".to_owned(),
        Mode::Time => "Todo (time)".to_owned(),
        Mode::Project => "Todo (project)".to_owned(),
        Mode::Normal => {
            let mut s = "Todo (".to_owned();
            let name = app.active_project_name();
            s.append(name.as_str());
            s.append(")");
            s
        },
    }
}

/// The key help of the bottom bar.
pub open spec fn help_text(mode: Mode, focus: Focus) -> Seq<char> {
    match mode {
        Mode::Normal => match focus {
            Focus::Projects => "tab:focus a:add e:edit d:delete /:search q:quit"@,
            Focus::Tasks => "tab:focus a:add e:edit d:delete x:done /:search left/right:column h/l:move q:quit"@,
        },
        Mode::Search => "type to search, enter/esc to exit"@,
        Mode::AddTask => "tab:next field left/right:move enter:save esc:cancel ctrl+o:calendar +/- priority"@,
        Mode::Calendar => "arrows:move pgup/pgdn:month enter:time esc:cancel"@,
        Mode::Time => "left/right:field up/down:change pgup/pgdn:+/-5 enter:select esc:back"@,
        Mode::Project => "enter:save esc:cancel left/right:move"@,
    }
}

/// The bottom bar: the message when there is one, else the key help.
pub fn footer_text(app: &App) -> (r: String)
    ensures
        r@ == if app.status@.len() == 0 { help_text(app.mode, app.focus) } else { app.status@ },
{
    if !app.status.as_str().is_empty() {
        return app.status.clone();
    }
    match app.mode {
        Mode::Normal => match app.focus {
            Focus::Projects => "tab:focus a:add e:edit d:delete /:search q:quit".to_owned(),
            Focus::Tasks => "tab:focus a:add e:edit d:delete x:done /:search left/right:column h/l:move q:quit".to_owned(),
        },
        Mode::Search => "type to search, enter/esc to exit".to_owned(),
        Mode::AddTask => "tab:next field left/right:move enter:save esc:cancel ctrl+o:calendar +/- priority".to_owned(),
        Mode::Calendar => "arrows:move pgup/pgdn:month enter:time esc:cancel".to_owned(),
        Mode::Time => "left/right:field up/down:change pgup/pgdn:+/-5 enter:select esc:back".to_owned(),
        Mode::Project => "enter:save esc:cancel left/right:move".to_owned(),
    }
}

/// The highlighted row of the project list: the selection, kept on the list.
pub fn project_state(selected: usize, len: usize) -> (r: Option<usize>)
    ensures
        len == 0 ==> r is None,
        len > 0 ==> r == Some(if selected < len - 1 { selected } else { (len - 1) as usize }),
{
    if len > 0 {
        Some(if selected < len - 1 { selected } else { len - 1 })
    } else {
        None
    }
}

/// The highlighted row of a board column: only in the active column.
pub fn list_state(selected: usize, active: bool, len: usize) -> (r: Option<usize>)
    ensures
        !(active && len > 0) ==> r is None,
        active && len > 0 ==> r == Some(if selected < len - 1 { selected } else { (len - 1) as usize }),
{
    if active && len > 0 {
        Some(if selected < len - 1 { selected } else { len - 1 })
    } else {
        None
    }
}

/// Where the text cursor of the add form sits, from the form's top-left
/// corner: the line of the field and the label's width plus the cursor.
pub open spec fn add_cursor_spot(field: AddField, title: int, deadline: int, reminder: int) -> Option<(int, int)> {
    match field {
        AddField::Title => Some((0int, 7 + title)),
        AddField::Deadline => Some((2int, 29 + deadline)),
        AddField::Reminder => Some((3int, 29 + reminder)),
        _ => None,
    }
}

pub fn cursor_position_add(app: &App, x: u16, y: u16) -> (r: Option<(u16, u16)>)
    requires
        add_cursor_spot(
            app.add_form.field,
            app.add_form.cursor_title as int,
            app.add_form.cursor_deadline as int,
            app.add_form.cursor_reminder as int,
        ) matches Some(spot) ==> x + spot.1 <= u16::MAX && y + spot.0 <= u16::MAX,
    ensures
        match add_cursor_spot(
            app.add_form.field,
            app.add_form.cursor_title as int,
            app.add_form.cursor_deadline as int,
            app.add_form.cursor_reminder as int,
        ) {
            Some(spot) => r == Some(((x + spot.1) as u16, (y + spot.0) as u16)),
            None => r is None,
        },
{
    let (row_index, label_len, cursor_pos): (u16, u16, usize) = match app.add_form.field {
        AddField::Title => (0, 7, app.add_form.cursor_title),
        AddField::Deadline => (2, 29, app.add_form.cursor_deadline),
        AddField::Reminder => (3, 29, app.add_form.cursor_reminder),
        _ => {
            return None;
        },
    };
    Some((x + label_len + cursor_pos as u16, y + row_index))
}

// ---------------------------------------------------------------------
// The month grid of the date picker

/// One day cell: the day number right-aligned in two places, in brackets
/// when selected.
pub open spec fn day_cell(day: int, selected: bool) -> Seq<char> {
    let n = pad_left_seq(decimal_nat(day as nat), ' ', 2);
    if selected { seq!['['] + n + seq![']'] } else { seq![' '] + n + seq![' '] }
}

pub open spec fn blank_cell() -> Seq<char> {
    repeat_char(' ', 4)
}

/// Cell `k` of the month grid (seven to a row): blank before the first
/// day and after the last, else the day `k - offset + 1`.
pub open spec fn grid_cell(offset: int, days: int, selected: int, k: int) -> Seq<char> {
    if k < offset || k >= offset + days {
        blank_cell()
    } else {
        day_cell(k - offset + 1, k - offset + 1 == selected)
    }
}

/// Cells side by side.
pub open spec fn joined(cells: Seq<Seq<char>>) -> Seq<char>
    decreases cells.len(),
{
    if cells.len() == 0 {
        Seq::empty()
    } else {
        joined(cells.drop_last()) + cells.last()
    }
}

/// The first `n` cells of week row `r`, side by side.
pub open spec fn week_row(offset: int, days: int, selected: int, r: int, n: int) -> Seq<char> {
    joined(Seq::new(n as nat, |c: int| grid_cell(offset, days, selected, 7 * r + c)))
}

/// The week rows of a month: as many as the blanks and days fill, the last
/// one filled up with blanks.
pub open spec fn week_rows(offset: int, days: int, selected: int) -> Seq<Seq<char>> {
    Seq::new(((offset + days + 6) / 7) as nat, |r: int| week_row(offset, days, selected, r, 7))
}

/// The lines of the date picker: month and year, the weekday names, and
/// the weeks of the month.
pub open spec fn calendar_text(cal: CalendarState) -> Seq<Seq<char>> {
    let first = CivilDate { year: cal.selected_year, month: cal.selected_month, day: 1 };
    let days = picker_month_days(cal.selected_year as int, cal.selected_month as int);
    seq![
        month_name_text(cal.selected_month as int) + " "@ + decimal_int(cal.selected_year as int),
        "Mo  Tu  We  Th  Fr  Sa  Su  "@,
    ] + week_rows(weekday_from_monday(first), days, cal.selected_day as int)
}

fn push_seq(r: &mut Vec<char>, t: &Vec<char>)
    ensures
        final(r)@ == old(r)@ + t@,
{
    let mut i: usize = 0;
    while i < t.len()
        invariant
            i <= t.len(),
            r@ == old(r)@ + t@.take(i as int),
        decreases t.len() - i,
    {
        r.push(t[i]);
        i = i + 1;
        assert(r@ =~= old(r)@ + t@.take(i as int));
    }
    assert(t@.take(t@.len() as int) =~= t@);
}

fn day_cell_chars(day: u32, selected: bool) -> (r: Vec<char>)
    ensures
        r@ == day_cell(day as int, selected),
{
    let n = pad_left(&u64_digits(day as u64), ' ', 2);
    let mut r: Vec<char> = Vec::new();
    r.push(if selected { '[' } else { ' ' });
    push_seq(&mut r, &n);
    r.push(if selected { ']' } else { ' ' });
    assert(r@ =~= day_cell(day as int, selected));
    r
}

fn blank_cell_chars() -> (r: Vec<char>)
    ensures
        r@ == blank_cell(),
{
    let mut r: Vec<char> = Vec::new();
    r.push(' ');
    r.push(' ');
    r.push(' ');
    r.push(' ');
    assert(r@ =~= blank_cell());
    r
}


fn week_row_chars(offset: u32, days: u32, selected: u32, r: u32) -> (line: String)
    requires
        offset < 7,
        days <= 31,
        r <= 6,
    ensures
        line@ == week_row(offset as int, days as int, selected as int, r as int, 7),
{
    let mut row: Vec<char> = Vec::new();
    let mut c: u32 = 0;
    while c < 7
        invariant
            c <= 7,
            offset < 7,
            days <= 31,
            r <= 6,
            row@ == week_row(offset as int, days as int, selected as int, r as int, c as int),
        decreases 7 - c,
    {
        let k = 7 * r + c;
        let cell = if k < offset || k >= offset + days {
            blank_cell_chars()
        } else {
            day_cell_chars(k - offset + 1, k - offset + 1 == selected)
        };
        let ghost cells = Seq::new((c + 1) as nat, |j: int| grid_cell(offset as int, days as int, selected as int, 7 * r + j));
        assert(cells.drop_last() =~= Seq::new(c as nat, |j: int| grid_cell(offset as int, days as int, selected as int, 7 * r + j)));
        push_seq(&mut row, &cell);
        c = c + 1;
    }
    string_from_chars(&row)
}

/// The lines of the date picker for the selected month.
pub fn calendar_lines(cal: &CalendarState) -> (r: Vec<String>)
    requires
        cal.wf(),
        month_days_computable(cal.selected_year as int, cal.selected_month as int),
    ensures
        crate::cli::lines_view(r@) == calendar_text(*cal),
{
    let mut title = month_name(cal.selected_month).to_owned();
    title.append(" ");
    append_chars(&mut title, &i64_digits(cal.selected_year as i64));
    let mut r: Vec<String> = Vec::new();
    r.push(title);
    r.push("Mo  Tu  We  Th  Fr  Sa  Su  ".to_owned());
    let first = CivilDate { year: cal.selected_year, month: cal.selected_month, day: 1 };
    let offset = weekday_index(first);
    let days = days_in_month(cal.selected_year, cal.selected_month);
    let rows = (offset + days + 6) / 7;
    let ghost head = seq![
        month_name_text(cal.selected_month as int) + " "@ + decimal_int(cal.selected_year as int),
        "Mo  Tu  We  Th  Fr  Sa  Su  "@,
    ];
    assert(crate::cli::lines_view(r@) =~= head);
    let mut k: u32 = 0;
    while k < rows
        invariant
            k <= rows,
            rows == (offset + days + 6) / 7,
            offset < 7,
            days <= 31,
            crate::cli::lines_view(r@) == head + week_rows(offset as int, days as int, cal.selected_day as int).take(k as int),
        decreases rows - k,
    {
        let line = week_row_chars(offset, days, cal.selected_day, k);
        let ghost before = crate::cli::lines_view(r@);
        r.push(line);
        assert(crate::cli::lines_view(r@) =~= before.push(line@));
        assert(week_rows(offset as int, days as int, cal.selected_day as int).take(k + 1)
            =~= week_rows(offset as int, days as int, cal.selected_day as int).take(k as int).push(line@));
        k = k + 1;
    }
    assert(week_rows(offset as int, days as int, cal.selected_day as int).take(rows as int)
        =~= week_rows(offset as int, days as int, cal.selected_day as int));
    r
}

} // verus!
