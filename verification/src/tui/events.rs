//! What each key does to the board state, and which change to the stored
//! tasks or projects it asks for.
use vstd::prelude::*;
use vstd::string::StringExecFns;
use crate::civil::{
    convertible_instant, unix_seconds, within_a_day, CivilDate, MAX_YEAR, MIN_YEAR, day_count, CivilDateTime, date_day_number, date_text, date_time_text, first_day_number,
    format_date_time, format_date, hour_minute_chars, hour_minute_text, last_day_number,
    local_date_time_of, parse_hour_minute, parsed_hour_minute, valid_date, valid_date_time,
    parsed_date_time,
};
use crate::task::{
    Status, Task, ambiguous_time_message, clamp_priority, column_of, invalid_datetime_message,
    normalize_priority, parse_datetime_local, status_column, status_from_column,
    status_of_column,
};
use crate::text::{
    append_chars, is_white_space, push_char, str_equal, string_from_chars, string_pop, trim_end_seq,
    trim_seq, trim_str, chars_of,
};
use crate::cli::{datetime_result, result_view};
use crate::tui::app::{
    AddField, AddForm, App, BoardState, Focus, Mode, ProjectEntry, ProjectForm, TimeField,
    TimePicker, row_down, row_within,
};
use crate::tui::calendar::{CalendarState, CalendarTarget, not_before};
use crate::tui::editing::{
    char_count, delete_char, deleted, insert_char, inserted, lemma_delete_undoes_insert,
};

verus! {

/// The keys the board reacts to.
#[derive(Debug, Clone, Copy, PartialEq, Eq, Structural)]
pub enum KeyCode {
    Char(char),
    Up,
    Down,
    Left,
    Right,
    Tab,
    BackTab,
    Enter,
    Esc,
    Backspace,
    PageUp,
    PageDown,
    Other,
}

/// A key press: the key, and whether Control was held.
#[derive(Debug, Clone, Copy, PartialEq, Eq, Structural)]
pub struct KeyEvent {
    pub code: KeyCode,
    pub control: bool,
}

/// A task to be stored from the form: new when `edit_id` is `None`.
pub struct TaskDraft {
    pub edit_id: Option<i64>,
    pub title: String,
    pub project_id: Option<i64>,
    pub priority: i64,
    pub deadline: Option<i64>,
    pub reminder: Option<i64>,
}

/// The change to the stored data that a key asks for; the caller performs
/// it and hands the outcome back.
pub enum Effect {
    Nothing,
    ReloadTasks,
    DeleteTask(i64),
    MarkDone(i64),
    MoveTask { id: i64, status: Status, column: usize },
    SaveTask(TaskDraft),
    SaveProject { edit_id: Option<i64>, name: String },
    DeleteProject(i64),
}

// ---------------------------------------------------------------------
// Form fields

pub open spec fn field_after(f: AddField) -> AddField {
    match f {
        AddField::Title => AddField::Project,
        AddField::Project => AddField::Deadline,
        AddField::Deadline => AddField::Reminder,
        AddField::Reminder => AddField::Priority,
        AddField::Priority => AddField::Title,
    }
}

pub open spec fn field_before(f: AddField) -> AddField {
    match f {
        AddField::Title => AddField::Priority,
        AddField::Project => AddField::Title,
        AddField::Deadline => AddField::Project,
        AddField::Reminder => AddField::Deadline,
        AddField::Priority => AddField::Reminder,
    }
}

pub fn next_field(field: AddField) -> (r: AddField)
    ensures
        r == field_after(field),
{
    match field {
        AddField::Title => AddField::Project,
        AddField::Project => AddField::Deadline,
        AddField::Deadline => AddField::Reminder,
        AddField::Reminder => AddField::Priority,
        AddField::Priority => AddField::Title,
    }
}

pub fn prev_field(field: AddField) -> (r: AddField)
    ensures
        r == field_before(field),
{
    match field {
        AddField::Title => AddField::Priority,
        AddField::Project => AddField::Title,
        AddField::Deadline => AddField::Project,
        AddField::Reminder => AddField::Deadline,
        AddField::Priority => AddField::Reminder,
    }
}

pub open spec fn is_text_field(f: AddField) -> bool {
    f == AddField::Title || f == AddField::Deadline || f == AddField::Reminder
}

/// The text of a form field (empty for the project and priority fields).
pub open spec fn field_text(form: AddForm, f: AddField) -> Seq<char> {
    match f {
        AddField::Title => form.title@,
        AddField::Deadline => form.deadline@,
        AddField::Reminder => form.reminder@,
        _ => Seq::empty(),
    }
}

pub open spec fn field_cursor(form: AddForm, f: AddField) -> int {
    match f {
        AddField::Title => form.cursor_title as int,
        AddField::Deadline => form.cursor_deadline as int,
        AddField::Reminder => form.cursor_reminder as int,
        _ => 0,
    }
}

/// `t` is `form` with the text and cursor of field `f` replaced; a form
/// without text in `f` stays as it is.
pub open spec fn form_with(form: AddForm, t: AddForm, f: AddField, text: Seq<char>, cursor: int) -> bool {
    match f {
        AddField::Title => t == (AddForm { title: t.title, cursor_title: cursor as usize, ..form })
            && t.title@ == text,
        AddField::Deadline => t == (AddForm {
            deadline: t.deadline,
            cursor_deadline: cursor as usize,
            ..form
        }) && t.deadline@ == text,
        AddField::Reminder => t == (AddForm {
            reminder: t.reminder,
            cursor_reminder: cursor as usize,
            ..form
        }) && t.reminder@ == text,
        _ => t == form,
    }
}

pub open spec fn min_int(a: int, b: int) -> int {
    if a < b { a } else { b }
}

/// Keeps the cursor of the current field within its text.
pub fn clamp_cursor(form: &mut AddForm)
    ensures
        form_with(
            *old(form),
            *final(form),
            old(form).field,
            field_text(*old(form), old(form).field),
            min_int(field_cursor(*old(form), old(form).field), field_text(*old(form), old(form).field).len() as int),
        ),
{
    match form.field {
        AddField::Title => {
            let len = char_count(form.title.as_str());
            form.cursor_title = if form.cursor_title < len { form.cursor_title } else { len };
        },
        AddField::Deadline => {
            let len = char_count(form.deadline.as_str());
            form.cursor_deadline = if form.cursor_deadline < len { form.cursor_deadline } else { len };
        },
        AddField::Reminder => {
            let len = char_count(form.reminder.as_str());
            form.cursor_reminder = if form.cursor_reminder < len { form.cursor_reminder } else { len };
        },
        _ => {},
    }
}

/// A cursor moved by `delta` and kept within a text of `len` characters.
pub open spec fn cursor_moved(cursor: int, delta: int, len: int) -> int {
    let next = cursor + delta;
    if next < 0 { 0 } else if next > len { len } else { next }
}

/// Whether moving the cursor stays within the integer widths it is computed in.
pub open spec fn cursor_movable(cursor: int, len: int) -> bool {
    cursor < i32::MAX && len <= i32::MAX
}

fn moved_cursor(cursor: usize, delta: i32, len: usize) -> (r: usize)
    requires
        cursor_movable(cursor as int, len as int),
        -1 <= delta <= 1,
    ensures
        r == cursor_moved(cursor as int, delta as int, len as int),
{
    let mut next = cursor as i32 + delta;
    if next < 0 {
        next = 0;
    }
    if next as usize > len {
        next = len as i32;
    }
    next as usize
}

/// Moves the cursor of the current text field by one character.
pub fn move_cursor(form: &mut AddForm, delta: i32)
    requires
        -1 <= delta <= 1,
        is_text_field(old(form).field) ==> cursor_movable(
            field_cursor(*old(form), old(form).field),
            field_text(*old(form), old(form).field).len() as int,
        ),
    ensures
        form_with(
            *old(form),
            *final(form),
            old(form).field,
            field_text(*old(form), old(form).field),
            cursor_moved(
                field_cursor(*old(form), old(form).field),
                delta as int,
                field_text(*old(form), old(form).field).len() as int,
            ),
        ),
{
    match form.field {
        AddField::Title => {
            let len = char_count(form.title.as_str());
            form.cursor_title = moved_cursor(form.cursor_title, delta, len);
        },
        AddField::Deadline => {
            let len = char_count(form.deadline.as_str());
            form.cursor_deadline = moved_cursor(form.cursor_deadline, delta, len);
        },
        AddField::Reminder => {
            let len = char_count(form.reminder.as_str());
            form.cursor_reminder = moved_cursor(form.cursor_reminder, delta, len);
        },
        _ => {},
    }
}

/// Deletes the character before the cursor of the current text field (the
/// cursor steps back even when no character is there to delete).
pub fn backspace_field(form: &mut AddForm)
    ensures
        is_text_field(old(form).field) && field_cursor(*old(form), old(form).field) > 0 ==> form_with(
            *old(form),
            *final(form),
            old(form).field,
            deleted(
                field_text(*old(form), old(form).field),
                field_cursor(*old(form), old(form).field) - 1,
            ),
            field_cursor(*old(form), old(form).field) - 1,
        ),
        !(is_text_field(old(form).field) && field_cursor(*old(form), old(form).field) > 0) ==> *final(form) == *old(form),
{
    match form.field {
        AddField::Title => {
            if form.cursor_title > 0 {
                delete_char(&mut form.title, form.cursor_title - 1);
                form.cursor_title = form.cursor_title - 1;
            }
        },
        AddField::Deadline => {
            if form.cursor_deadline > 0 {
                delete_char(&mut form.deadline, form.cursor_deadline - 1);
                form.cursor_deadline = form.cursor_deadline - 1;
            }
        },
        AddField::Reminder => {
            if form.cursor_reminder > 0 {
                delete_char(&mut form.reminder, form.cursor_reminder - 1);
                form.cursor_reminder = form.cursor_reminder - 1;
            }
        },
        _ => {},
    }
}

/// Types `ch` at the cursor of the current text field.
pub fn type_into_field(form: &mut AddForm, ch: char)
    requires
        is_text_field(old(form).field) ==> field_cursor(*old(form), old(form).field) < usize::MAX,
    ensures
        form_with(
            *old(form),
            *final(form),
            old(form).field,
            inserted(field_text(*old(form), old(form).field), field_cursor(*old(form), old(form).field), ch),
            field_cursor(*old(form), old(form).field) + 1,
        ),
{
    match form.field {
        AddField::Title => {
            insert_char(&mut form.title, form.cursor_title, ch);
            form.cursor_title = form.cursor_title + 1;
        },
        AddField::Deadline => {
            insert_char(&mut form.deadline, form.cursor_deadline, ch);
            form.cursor_deadline = form.cursor_deadline + 1;
        },
        AddField::Reminder => {
            insert_char(&mut form.reminder, form.cursor_reminder, ch);
            form.cursor_reminder = form.cursor_reminder + 1;
        },
        _ => {},
    }
}

/// The form's project choice moved by `delta` within the project list.
pub open spec fn project_index_moved(index: int, delta: int, len: int) -> int {
    if len == 0 {
        0
    } else {
        let next = index + delta;
        if next < 0 { 0 } else if next >= len { len - 1 } else { next }
    }
}

/// Steps the form's project choice through the project list.
pub fn cycle_project(app: &mut App, delta: i32)
    requires
        -1 <= delta <= 1,
        old(app).add_form.project_index < i32::MAX,
        old(app).projects.len() <= i32::MAX,
    ensures
        *final(app) == (App {
            add_form: AddForm {
                project_index: project_index_moved(
                    old(app).add_form.project_index as int,
                    delta as int,
                    old(app).projects.len() as int,
                ) as usize,
                ..old(app).add_form
            },
            ..*old(app)
        }),
{
    if app.projects.len() == 0 {
        app.add_form.project_index = 0;
        return;
    }
    let mut next = app.add_form.project_index as i32 + delta;
    if next < 0 {
        next = 0;
    }
    if next as usize >= app.projects.len() {
        next = (app.projects.len() - 1) as i32;
    }
    app.add_form.project_index = next as usize;
}

/// The time picker after stepping its current part by `delta`, wrapping
/// around the day and the hour.
pub open spec fn time_stepped(p: TimePicker, delta: int) -> TimePicker {
    match p.field {
        TimeField::Hour => TimePicker { hour: ((p.hour + delta) % 24) as u32, ..p },
        TimeField::Minute => TimePicker { minute: ((p.minute + delta) % 60) as u32, ..p },
    }
}

pub fn increment_time(picker: &mut TimePicker, delta: i32)
    requires
        old(picker).hour < 24,
        old(picker).minute < 60,
        -5 <= delta <= 5,
    ensures
        *final(picker) == time_stepped(*old(picker), delta as int),
        final(picker).hour < 24,
        final(picker).minute < 60,
{
    match picker.field {
        TimeField::Hour => {
            let mut hour = picker.hour as i32 + delta;
            while hour < 0
                invariant
                    -24 <= hour < 30,
                    (hour - (picker.hour + delta)) % 24 == 0,
                decreases 30 - hour,
            {
                hour = hour + 24;
            }
            assert(hour % 24 == (picker.hour + delta) % 24) by (nonlinear_arith)
                requires
                    (hour - (picker.hour + delta)) % 24 == 0,
            ;
            picker.hour = (hour % 24) as u32;
        },
        TimeField::Minute => {
            let mut minute = picker.minute as i32 + delta;
            while minute < 0
                invariant
                    -60 <= minute < 65,
                    (minute - (picker.minute + delta)) % 60 == 0,
                decreases 65 - minute,
            {
                minute = minute + 60;
            }
            assert(minute % 60 == (picker.minute + delta) % 60) by (nonlinear_arith)
                requires
                    (minute - (picker.minute + delta)) % 60 == 0,
            ;
            picker.minute = (minute % 60) as u32;
        },
    }
}

/// Tab and Shift-Tab undo each other: the field after the one before a
/// field is that field, and so the other way round; five Tabs come back to
/// the field they started from.
pub proof fn lemma_field_cycle(f: AddField)
    ensures
        field_before(field_after(f)) == f,
        field_after(field_before(f)) == f,
        field_after(field_after(field_after(field_after(field_after(f))))) == f,
{
}

/// Stepping the time picker's current part by `delta` and then by `-delta`
/// gives the picked time back.
pub proof fn lemma_time_step_undone(p: TimePicker, delta: int)
    requires
        p.hour < 24,
        p.minute < 60,
    ensures
        time_stepped(time_stepped(p, delta), -delta) == p,
{
    match p.field {
        TimeField::Hour => {
            let h = (p.hour + delta) % 24;
            assert((h - delta) % 24 == p.hour as int) by (nonlinear_arith)
                requires
                    h == (p.hour + delta) % 24,
                    0 <= p.hour < 24,
            ;
        },
        TimeField::Minute => {
            let m = (p.minute + delta) % 60;
            assert((m - delta) % 60 == p.minute as int) by (nonlinear_arith)
                requires
                    m == (p.minute + delta) % 60,
                    0 <= p.minute < 60,
            ;
        },
    }
}

/// Typing a character into a text field and then pressing Backspace gives
/// the field's text and cursor back, the cursor lying within the text.
pub proof fn lemma_backspace_undoes_typing(form: AddForm, typed: AddForm, back: AddForm, ch: char)
    requires
        is_text_field(form.field),
        field_cursor(form, form.field) <= field_text(form, form.field).len(),
        field_cursor(form, form.field) < usize::MAX,
        form_with(
            form,
            typed,
            form.field,
            inserted(field_text(form, form.field), field_cursor(form, form.field), ch),
            field_cursor(form, form.field) + 1,
        ),
        form_with(
            typed,
            back,
            typed.field,
            deleted(field_text(typed, typed.field), field_cursor(typed, typed.field) - 1),
            field_cursor(typed, typed.field) - 1,
        ),
    ensures
        form_with(form, back, form.field, field_text(form, form.field), field_cursor(form, form.field)),
{
    lemma_delete_undoes_insert(field_text(form, form.field), field_cursor(form, form.field), ch);
    match form.field {
        AddField::Title => {
            assert(back == AddForm { title: back.title, cursor_title: form.cursor_title, ..form });
        },
        AddField::Deadline => {
            assert(back == AddForm { deadline: back.deadline, cursor_deadline: form.cursor_deadline, ..form });
        },
        AddField::Reminder => {
            assert(back == AddForm { reminder: back.reminder, cursor_reminder: form.cursor_reminder, ..form });
        },
        _ => {},
    }
}

/// The last white-space-separated word of a text, if any.
pub open spec fn last_word(s: Seq<char>) -> Option<Seq<char>> {
    let t = trim_end_seq(s);
    if t.len() == 0 {
        None
    } else {
        Some(word_tail(t))
    }
}

/// The characters after the last white space of `t`.
pub open spec fn word_tail(t: Seq<char>) -> Seq<char>
    decreases t.len(),
{
    if t.len() == 0 {
        t
    } else if is_white_space(t.last()) {
        Seq::empty()
    } else {
        word_tail(t.drop_last()).push(t.last())
    }
}

/// The time of day at the end of a form text (`YYYY-MM-DD HH:MM`), if it
/// has one.
pub open spec fn time_in_text(s: Seq<char>) -> Option<(u32, u32)> {
    match last_word(s) {
        Some(w) => parsed_hour_minute(w),
        None => None,
    }
}

pub fn extract_time(input: &str) -> (r: Option<(u32, u32)>)
    ensures
        r == time_in_text(input@),
        r matches Some(hm) ==> hm.0 < 24 && hm.1 < 60,
{
    let cs = chars_of(input);
    let mut end: usize = cs.len();
    proof {
        assert(cs@.subrange(0, end as int) =~= cs@);
    }
    while end > 0 && crate::text::char_is_white_space(cs[end - 1])
        invariant
            end <= cs.len(),
            cs@ == input@,
            trim_end_seq(input@) == trim_end_seq(cs@.subrange(0, end as int)),
        decreases end,
    {
        assert(cs@.subrange(0, end as int).drop_last() =~= cs@.subrange(0, end - 1));
        end = end - 1;
    }
    let ghost t = cs@.subrange(0, end as int);
    assert(trim_end_seq(t) == t);
    if end == 0 {
        return None;
    }
    let mut start: usize = end;
    while start > 0 && !crate::text::char_is_white_space(cs[start - 1])
        invariant
            start <= end <= cs.len(),
            cs@ == input@,
            t == cs@.subrange(0, end as int),
            word_tail(t) == word_tail(cs@.subrange(0, start as int)) + cs@.subrange(start as int, end as int),
        decreases start,
    {
        let ghost p = cs@.subrange(0, start as int);
        assert(p.drop_last() =~= cs@.subrange(0, start - 1));
        assert(cs@.subrange(start - 1, end as int) =~= seq![p.last()] + cs@.subrange(start as int, end as int));
        assert(word_tail(p) == word_tail(p.drop_last()).push(p.last()));
        assert(word_tail(p.drop_last()).push(p.last()) + cs@.subrange(start as int, end as int)
            =~= word_tail(p.drop_last()) + cs@.subrange(start - 1, end as int));
        start = start - 1;
    }
    proof {
        let p = cs@.subrange(0, start as int);
        assert(word_tail(p) =~= Seq::<char>::empty());
        assert(word_tail(t) =~= cs@.subrange(start as int, end as int));
    }
    let mut word: Vec<char> = Vec::new();
    let mut k: usize = start;
    while k < end
        invariant
            start <= k <= end <= cs.len(),
            word@ == cs@.subrange(start as int, k as int),
        decreases end - k,
    {
        word.push(cs[k]);
        k = k + 1;
        assert(word@ =~= cs@.subrange(start as int, k as int));
    }
    let w = string_from_chars(&word);
    parse_hour_minute(w.as_str())
}

/// Whether `text` is what the form shows for an optional timestamp: empty
/// for none; for a timestamp well inside chrono's range, the
/// `YYYY-MM-DD HH:MM` of a real local date-time within a day of it (which
/// one depends on the time zone); near the ends of the range, empty or such
/// a text.
pub open spec fn is_datetime_input(text: Seq<char>, ts: Option<i64>) -> bool {
    match ts {
        None => text.len() == 0,
        Some(t) => if convertible_instant(t as int) {
            exists|dt: CivilDateTime|
                valid_date_time(dt) && within_a_day(#[trigger] unix_seconds(dt), t as int) && text
                    == date_time_text(dt)
        } else {
            text.len() == 0 || exists|dt: CivilDateTime| text == #[trigger] date_time_text(dt)
        },
    }
}

pub fn format_datetime_input(value: Option<i64>) -> (r: String)
    ensures
        is_datetime_input(r@, value),
{
    match value {
        Some(ts) => match local_date_time_of(ts) {
            Some(dt) => format_date_time(dt),
            None => String::new(),
        },
        None => String::new(),
    }
}

} // verus!

verus! {

// ---------------------------------------------------------------------
// Normal mode

/// `t` is `s` with the footer message set to `msg`.
pub open spec fn status_set(s: App, t: App, msg: Seq<char>) -> bool {
    t == (App { status: t.status, ..s }) && t.status@ == msg
}

/// The empty add form is opened for a new task.
pub open spec fn task_add_started(s: App, t: App) -> bool {
    &&& t == (App { add_form: t.add_form, edit_id: None, mode: Mode::AddTask, status: t.status, ..s })
    &&& t.add_form.is_blank()
    &&& t.status@.len() == 0
}

/// The empty project form is opened for a new project.
pub open spec fn project_add_started(s: App, t: App) -> bool {
    &&& t == (App {
        project_form: t.project_form,
        mode: Mode::Project,
        focus: Focus::Projects,
        status: t.status,
        ..s
    })
    &&& t.project_form.name@.len() == 0
    &&& t.project_form.cursor == 0
    &&& t.project_form.edit_id is None
    &&& t.status@.len() == 0
}

/// `e` on the project list: the selected project's form opens for renaming;
/// the `All` project, or no selection, is refused with a message.
pub open spec fn project_edit_outcome(s: App, t: App) -> bool {
    if s.selected_project >= s.projects.len() {
        status_set(s, t, "Cannot edit All projects"@)
    } else {
        let entry = s.projects[s.selected_project as int];
        if entry.name@ == "All"@ {
            status_set(s, t, "Cannot edit All project"@)
        } else {
            match entry.id {
                Some(id) => {
                    &&& t == (App {
                        project_form: t.project_form,
                        mode: Mode::Project,
                        focus: Focus::Projects,
                        status: t.status,
                        ..s
                    })
                    &&& t.project_form.name@ == entry.name@
                    &&& t.project_form.cursor == entry.name@.len()
                    &&& t.project_form.edit_id == Some(id)
                    &&& t.status@.len() == 0
                },
                None => t == s,
            }
        }
    }
}

/// `d` on the project list: the selected project is to be deleted; the
/// `All` project, or no selection, is refused with a message.
pub open spec fn project_delete_outcome(s: App, t: App, e: Effect) -> bool {
    if s.selected_project >= s.projects.len() {
        status_set(s, t, "Cannot delete All projects"@) && e is Nothing
    } else {
        let entry = s.projects[s.selected_project as int];
        if entry.name@ == "All"@ {
            status_set(s, t, "Cannot delete All project"@) && e is Nothing
        } else {
            match entry.id {
                Some(id) => t == s && e == Effect::DeleteProject(id),
                None => t == s && e is Nothing,
            }
        }
    }
}

/// `e` on the board: the selected task's values fill the form for editing.
pub open spec fn task_edit_outcome(s: App, t: App) -> bool {
    match s.selected() {
        None => t == s,
        Some(task) => {
            &&& t == (App {
                edit_id: Some(task.id),
                add_form: t.add_form,
                mode: Mode::AddTask,
                status: t.status,
                ..s
            })
            &&& t.status@.len() == 0
            &&& t.add_form.title@ == task.title@
            &&& is_datetime_input(t.add_form.deadline@, task.deadline)
            &&& is_datetime_input(t.add_form.reminder@, task.reminder)
            &&& t.add_form.priority == task.priority
            &&& t.add_form.project_index == s.project_position(task.project_id)
            &&& t.add_form.cursor_title == task.title@.len()
            &&& t.add_form.cursor_deadline == t.add_form.deadline@.len()
            &&& t.add_form.cursor_reminder == t.add_form.reminder@.len()
            &&& t.add_form.field == AddField::Title
        },
    }
}

/// The column `delta` columns beside `column`, within the three.
pub open spec fn column_beside(column: int, delta: int) -> int {
    let c = column + delta;
    if c < 0 { 0 } else if c > 2 { 2 } else { c }
}

/// `h`/`l`: the selected task is to move to the neighbouring column.
pub open spec fn move_effect(s: App, delta: int) -> Effect {
    match s.selected() {
        Some(task) => {
            let c = column_beside(column_of(task.status), delta);
            Effect::MoveTask { id: task.id, status: status_of_column(c), column: c as usize }
        },
        None => Effect::Nothing,
    }
}

pub open spec fn column_moved(s: App, t: App, delta: int) -> bool {
    &&& t.board.column == s.column_after(delta)
    &&& t.board.row == row_within(s.board.row as int, s.column(s.column_after(delta)).len() as int)
    &&& t == (App { board: t.board, ..s })
}

pub open spec fn normal_char_outcome(s: App, t: App, c: char, e: Effect) -> bool {
    if c == 'q' {
        t == (App { should_quit: true, ..s }) && e is Nothing
    } else if c == 'a' {
        e is Nothing && if s.focus == Focus::Projects {
            project_add_started(s, t)
        } else {
            task_add_started(s, t)
        }
    } else if c == 'e' {
        e is Nothing && if s.focus == Focus::Projects {
            project_edit_outcome(s, t)
        } else {
            task_edit_outcome(s, t)
        }
    } else if c == 'd' {
        if s.focus == Focus::Projects {
            project_delete_outcome(s, t, e)
        } else {
            t == s && e == match s.selected() {
                Some(task) => Effect::DeleteTask(task.id),
                None => Effect::Nothing,
            }
        }
    } else if c == 'x' {
        t == s && e == if s.focus == Focus::Tasks && s.selected() is Some {
            Effect::MarkDone(s.selected()->0.id)
        } else {
            Effect::Nothing
        }
    } else if c == 'h' || c == 'l' {
        t == s && e == if s.focus == Focus::Tasks {
            move_effect(s, if c == 'h' { -1 } else { 1 })
        } else {
            Effect::Nothing
        }
    } else if c == '/' {
        &&& t == (App {
            mode: Mode::Search,
            search_query: t.search_query,
            board: BoardState { row: 0, ..s.board },
            focus: Focus::Tasks,
            ..s
        })
        &&& t.search_query@.len() == 0
        &&& e is Nothing
    } else {
        t == s && e is Nothing
    }
}

/// What a key does on the board in normal mode.
pub open spec fn normal_outcome(s: App, t: App, key: KeyEvent, e: Effect) -> bool {
    match key.code {
        KeyCode::Char(c) => normal_char_outcome(s, t, c, e),
        KeyCode::Down => e is Nothing && if s.focus == Focus::Projects {
            t == (App {
                selected_project: row_down(s.selected_project as int, s.projects.len() as int) as usize,
                ..s
            })
        } else {
            t == (App {
                board: BoardState { row: row_down(s.board.row as int, s.column_len()) as usize, ..s.board },
                ..s
            })
        },
        KeyCode::Up => e is Nothing && if s.focus == Focus::Projects {
            t == (App {
                selected_project: if s.selected_project > 0 { (s.selected_project - 1) as usize } else { 0 },
                ..s
            })
        } else {
            t == (App {
                board: BoardState {
                    row: if s.board.row > 0 { (s.board.row - 1) as usize } else { 0 },
                    ..s.board
                },
                ..s
            })
        },
        KeyCode::Left => e is Nothing && if s.focus == Focus::Tasks {
            column_moved(s, t, -1)
        } else {
            t == s
        },
        KeyCode::Right => e is Nothing && if s.focus == Focus::Tasks {
            column_moved(s, t, 1)
        } else {
            t == s
        },
        KeyCode::Tab => e is Nothing && t == (App {
            focus: if s.focus == Focus::Projects { Focus::Tasks } else { Focus::Projects },
            ..s
        }),
        KeyCode::Enter => if s.focus == Focus::Projects {
            t == (App { board: BoardState { row: 0, ..s.board }, ..s }) && e is ReloadTasks
        } else {
            t == s && e is Nothing
        },
        _ => t == s && e is Nothing,
    }
}

fn start_project_add(app: &mut App)
    ensures
        project_add_started(*old(app), *final(app)),
{
    app.project_form = ProjectForm::default();
    app.mode = Mode::Project;
    app.focus = Focus::Projects;
    app.set_status(String::new());
}

fn start_project_edit(app: &mut App)
    ensures
        project_edit_outcome(*old(app), *final(app)),
{
    if app.selected_project >= app.projects.len() {
        app.set_status("Cannot edit All projects".to_owned());
        return;
    }
    let sel = app.selected_project;
    if str_equal(app.projects[sel].name.as_str(), "All") {
        app.set_status("Cannot edit All project".to_owned());
        return;
    }
    match app.projects[sel].id {
        Some(id) => {
            let name = app.projects[sel].name.clone();
            let cursor = char_count(name.as_str());
            app.project_form = ProjectForm { name: name, cursor: cursor, edit_id: Some(id) };
            app.mode = Mode::Project;
            app.focus = Focus::Projects;
            app.set_status(String::new());
        },
        None => {},
    }
}

fn delete_selected_project(app: &mut App) -> (e: Effect)
    ensures
        project_delete_outcome(*old(app), *final(app), e),
{
    if app.selected_project >= app.projects.len() {
        app.set_status("Cannot delete All projects".to_owned());
        return Effect::Nothing;
    }
    let sel = app.selected_project;
    if str_equal(app.projects[sel].name.as_str(), "All") {
        app.set_status("Cannot delete All project".to_owned());
        return Effect::Nothing;
    }
    match app.projects[sel].id {
        Some(id) => Effect::DeleteProject(id),
        None => Effect::Nothing,
    }
}

fn start_task_edit(app: &mut App)
    ensures
        task_edit_outcome(*old(app), *final(app)),
{
    let snapshot = match app.selected_task() {
        Some(task) => Some((task.id, task.title.clone(), task.project_id, task.priority, task.deadline, task.reminder)),
        None => None,
    };
    match snapshot {
        Some((id, title, project_id, priority, deadline, reminder)) => {
            app.edit_id = Some(id);
            let deadline_text = format_datetime_input(deadline);
            let reminder_text = format_datetime_input(reminder);
            let project_index = app.project_index_by_id(project_id);
            let cursor_title = char_count(title.as_str());
            let cursor_deadline = char_count(deadline_text.as_str());
            let cursor_reminder = char_count(reminder_text.as_str());
            app.add_form = AddForm {
                title: title,
                deadline: deadline_text,
                reminder: reminder_text,
                field: AddField::Title,
                priority: priority,
                project_index: project_index,
                cursor_title: cursor_title,
                cursor_deadline: cursor_deadline,
                cursor_reminder: cursor_reminder,
            };
            app.mode = Mode::AddTask;
            app.set_status(String::new());
        },
        None => {},
    }
}

fn move_selected_task(app: &App, delta: i32) -> (e: Effect)
    requires
        -1 <= delta <= 1,
    ensures
        e == move_effect(*app, delta as int),
{
    match app.selected_task() {
        Some(task) => {
            let mut next_col = status_column(task.status) as i32 + delta;
            if next_col < 0 {
                next_col = 0;
            }
            if next_col > 2 {
                next_col = 2;
            }
            let next_status = status_from_column(next_col as usize);
            Effect::MoveTask { id: task.id, status: next_status, column: next_col as usize }
        },
        None => Effect::Nothing,
    }
}

pub fn handle_normal(app: &mut App, key: KeyEvent) -> (e: Effect)
    requires
        old(app).wf(),
    ensures
        normal_outcome(*old(app), *final(app), key, e),
{
    match key.code {
        KeyCode::Char('q') => {
            app.should_quit = true;
            Effect::Nothing
        },
        KeyCode::Down => {
            match app.focus {
                Focus::Projects => app.next_project(),
                Focus::Tasks => app.next(),
            }
            Effect::Nothing
        },
        KeyCode::Up => {
            match app.focus {
                Focus::Projects => app.previous_project(),
                Focus::Tasks => app.previous(),
            }
            Effect::Nothing
        },
        KeyCode::Left => {
            if app.focus == Focus::Tasks {
                app.move_column(-1);
            }
            Effect::Nothing
        },
        KeyCode::Right => {
            if app.focus == Focus::Tasks {
                app.move_column(1);
            }
            Effect::Nothing
        },
        KeyCode::Tab => {
            app.toggle_focus();
            Effect::Nothing
        },
        KeyCode::Enter => {
            if app.focus == Focus::Projects {
                app.board.row = 0;
                Effect::ReloadTasks
            } else {
                Effect::Nothing
            }
        },
        KeyCode::Char('a') => {
            if app.focus == Focus::Projects {
                start_project_add(app);
            } else {
                app.reset_add_form();
                app.edit_id = None;
                app.mode = Mode::AddTask;
                app.set_status(String::new());
            }
            Effect::Nothing
        },
        KeyCode::Char('e') => {
            if app.focus == Focus::Projects {
                start_project_edit(app);
            } else {
                start_task_edit(app);
            }
            Effect::Nothing
        },
        KeyCode::Char('d') => {
            if app.focus == Focus::Projects {
                delete_selected_project(app)
            } else {
                match app.selected_task() {
                    Some(task) => Effect::DeleteTask(task.id),
                    None => Effect::Nothing,
                }
            }
        },
        KeyCode::Char('x') => {
            if app.focus == Focus::Tasks {
                match app.selected_task() {
                    Some(task) => Effect::MarkDone(task.id),
                    None => Effect::Nothing,
                }
            } else {
                Effect::Nothing
            }
        },
        KeyCode::Char('h') => {
            if app.focus == Focus::Tasks {
                move_selected_task(app, -1)
            } else {
                Effect::Nothing
            }
        },
        KeyCode::Char('l') => {
            if app.focus == Focus::Tasks {
                move_selected_task(app, 1)
            } else {
                Effect::Nothing
            }
        },
        KeyCode::Char('/') => {
            app.mode = Mode::Search;
            app.search_query = String::new();
            app.board.row = 0;
            app.focus = Focus::Tasks;
            Effect::Nothing
        },
        _ => Effect::Nothing,
    }
}

} // verus!

verus! {

// ---------------------------------------------------------------------
// Search mode

/// What a key does while typing a search.
pub open spec fn search_outcome(s: App, t: App, key: KeyEvent, e: Effect) -> bool {
    &&& e is Nothing
    &&& match key.code {
        KeyCode::Esc | KeyCode::Enter => {
            &&& t == (App {
                mode: Mode::Normal,
                search_query: t.search_query,
                board: BoardState { row: 0, ..s.board },
                ..s
            })
            &&& t.search_query@.len() == 0
        },
        KeyCode::Backspace => {
            &&& t == (App {
                search_query: t.search_query,
                board: BoardState { row: 0, ..s.board },
                ..s
            })
            &&& t.search_query@ == if s.search_query@.len() > 0 {
                s.search_query@.drop_last()
            } else {
                s.search_query@
            }
        },
        KeyCode::Char(c) => if key.control {
            t == s
        } else {
            &&& t == (App {
                search_query: t.search_query,
                board: BoardState { row: 0, ..s.board },
                ..s
            })
            &&& t.search_query@ == s.search_query@.push(c)
        },
        KeyCode::Down => t == (App {
            board: BoardState { row: row_down(s.board.row as int, s.column_len()) as usize, ..s.board },
            ..s
        }),
        KeyCode::Up => t == (App {
            board: BoardState {
                row: if s.board.row > 0 { (s.board.row - 1) as usize } else { 0 },
                ..s.board
            },
            ..s
        }),
        _ => t == s,
    }
}

pub fn handle_search(app: &mut App, key: KeyEvent) -> (e: Effect)
    ensures
        search_outcome(*old(app), *final(app), key, e),
{
    match key.code {
        KeyCode::Esc | KeyCode::Enter => {
            app.mode = Mode::Normal;
            app.search_query = String::new();
            app.board.row = 0;
        },
        KeyCode::Backspace => {
            string_pop(&mut app.search_query);
            app.board.row = 0;
        },
        KeyCode::Char(c) => {
            if !key.control {
                push_char(&mut app.search_query, c);
                app.board.row = 0;
            }
        },
        KeyCode::Down => app.next(),
        KeyCode::Up => app.previous(),
        _ => {},
    }
    Effect::Nothing
}

// ---------------------------------------------------------------------
// Add/edit form

/// The text of a date field as the form reads it: blank is no date, else
/// the trimmed text.
pub open spec fn field_input(text: Seq<char>) -> Option<Seq<char>> {
    if trim_seq(text).len() == 0 { None } else { Some(trim_seq(text)) }
}

/// What Enter does once the dates were read: `dv` and `rv` are what the
/// deadline and reminder fields gave. The first failure is reported in the
/// footer, deadline before reminder; otherwise the task is to be stored
/// (added, or updated when editing) with the trimmed title, the chosen
/// project, the clamped priority, and the dates read.
pub open spec fn save_with_dates(
    s: App,
    t: App,
    e: Effect,
    dv: Result<Option<i64>, Seq<char>>,
    rv: Result<Option<i64>, Seq<char>>,
) -> bool {
    let form = s.add_form;
    match dv {
        Err(m) => status_set(s, t, m) && e is Nothing,
        Ok(d) => match rv {
            Err(m) => status_set(s, t, m) && e is Nothing,
            Ok(rm) => t == s && (e matches Effect::SaveTask(draft) && {
                &&& draft.edit_id == s.edit_id
                &&& draft.title@ == trim_seq(form.title@)
                &&& draft.project_id == s.project_id_at(form.project_index as int)
                &&& draft.priority == clamp_priority(form.priority as int)
                &&& draft.deadline == d
                &&& draft.reminder == rm
            }),
        },
    }
}

/// Enter on the form: a blank title is reported in the footer; otherwise
/// the dates are read (what the local clock makes of them is left to the
/// time zone) and the result goes as `save_with_dates` says.
pub open spec fn save_outcome(s: App, t: App, e: Effect) -> bool {
    let form = s.add_form;
    if trim_seq(form.title@).len() == 0 {
        status_set(s, t, "Title is required"@) && e is Nothing
    } else {
        exists|dv: Result<Option<i64>, Seq<char>>, rv: Result<Option<i64>, Seq<char>>|
            #![trigger datetime_result(field_input(form.deadline@), dv), datetime_result(field_input(form.reminder@), rv)]
            {
                &&& datetime_result(field_input(form.deadline@), dv)
                &&& datetime_result(field_input(form.reminder@), rv)
                &&& save_with_dates(s, t, e, dv, rv)
            }
    }
}

/// Reads a date field: blank is no date.
fn read_date_field(text: &String) -> (r: Result<Option<i64>, String>)
    ensures
        datetime_result(field_input(text@), result_view(r)),
{
    let trimmed = string_from_chars(&trim_str(text.as_str()));
    if trimmed.as_str().is_empty() {
        return Ok(None);
    }
    match parse_datetime_local(trimmed.as_str()) {
        Ok(value) => Ok(Some(value)),
        Err(err) => Err(err),
    }
}

fn save_task(app: &mut App) -> (e: Effect)
    ensures
        save_outcome(*old(app), *final(app), e),
{
    let title = string_from_chars(&trim_str(app.add_form.title.as_str()));
    if title.as_str().is_empty() {
        app.set_status("Title is required".to_owned());
        return Effect::Nothing;
    }
    let ghost s = *app;
    let ghost dinput = field_input(app.add_form.deadline@);
    let ghost rinput = field_input(app.add_form.reminder@);
    // what the reminder would give, where it is never read
    let ghost unread: Result<Option<i64>, Seq<char>> = match rinput {
        None => Ok(None),
        Some(x) => match parsed_date_time(x) {
            None => Err(invalid_datetime_message(x)),
            Some(_) => Err(ambiguous_time_message(x)),
        },
    };
    let project_id = app.project_id_by_index(app.add_form.project_index);
    let deadline_read = read_date_field(&app.add_form.deadline);
    let ghost dres = result_view(deadline_read);
    let deadline = match deadline_read {
        Ok(d) => d,
        Err(err) => {
            app.set_status(err);
            assert(datetime_result(dinput, dres) && datetime_result(rinput, unread));
            assert(save_with_dates(s, *app, Effect::Nothing, dres, unread));
            return Effect::Nothing;
        },
    };
    let reminder_read = read_date_field(&app.add_form.reminder);
    let ghost rres = result_view(reminder_read);
    let reminder = match reminder_read {
        Ok(r) => r,
        Err(err) => {
            app.set_status(err);
            assert(datetime_result(dinput, dres) && datetime_result(rinput, rres));
            assert(save_with_dates(s, *app, Effect::Nothing, dres, rres));
            return Effect::Nothing;
        },
    };
    let priority = normalize_priority(app.add_form.priority);
    let e = Effect::SaveTask(
        TaskDraft {
            edit_id: app.edit_id,
            title: title,
            project_id: project_id,
            priority: priority,
            deadline: deadline,
            reminder: reminder,
        },
    );
    assert(datetime_result(dinput, dres) && datetime_result(rinput, rres));
    assert(save_with_dates(s, *app, e, dres, rres));
    e
}

/// `t` is `s` with its form replaced by `form` and nothing else changed.
pub open spec fn form_only(s: App, t: App) -> bool {
    t == (App { add_form: t.add_form, ..s })
}

/// What a key does in the add/edit form.
pub open spec fn add_outcome(s: App, t: App, key: KeyEvent, e: Effect) -> bool {
    let form = s.add_form;
    let f = form.field;
    match key.code {
        KeyCode::Esc => e is Nothing && t == (App { mode: Mode::Normal, edit_id: None, ..s }),
        KeyCode::Tab | KeyCode::Down => e is Nothing && form_only(s, t) && {
            let moved = AddForm { field: field_after(f), ..form };
            form_with(moved, t.add_form, moved.field, field_text(moved, moved.field), min_int(
                field_cursor(moved, moved.field),
                field_text(moved, moved.field).len() as int,
            ))
        },
        KeyCode::BackTab | KeyCode::Up => e is Nothing && form_only(s, t) && {
            let moved = AddForm { field: field_before(f), ..form };
            form_with(moved, t.add_form, moved.field, field_text(moved, moved.field), min_int(
                field_cursor(moved, moved.field),
                field_text(moved, moved.field).len() as int,
            ))
        },
        KeyCode::Enter => save_outcome(s, t, e),
        KeyCode::Left | KeyCode::Right => {
            let delta: int = if key.code == KeyCode::Left { -1 } else { 1 };
            e is Nothing && if f == AddField::Project {
                t == (App {
                    add_form: AddForm {
                        project_index: project_index_moved(
                            form.project_index as int,
                            delta,
                            s.projects.len() as int,
                        ) as usize,
                        ..form
                    },
                    ..s
                })
            } else if f == AddField::Priority {
                t == (App {
                    add_form: AddForm { priority: clamp_priority(form.priority + delta) as i64, ..form },
                    ..s
                })
            } else {
                form_only(s, t) && form_with(
                    form,
                    t.add_form,
                    f,
                    field_text(form, f),
                    cursor_moved(field_cursor(form, f), delta, field_text(form, f).len() as int),
                )
            }
        },
        KeyCode::Backspace => e is Nothing && form_only(s, t) && if is_text_field(f) && field_cursor(
            form,
            f,
        ) > 0 {
            form_with(
                form,
                t.add_form,
                f,
                deleted(field_text(form, f), field_cursor(form, f) - 1),
                field_cursor(form, f) - 1,
            )
        } else {
            t == s
        },
        KeyCode::Char(c) => e is Nothing && if c == 'o' && key.control {
            if f == AddField::Deadline {
                t == (App { calendar_target: Some(CalendarTarget::Deadline), mode: Mode::Calendar, ..s })
            } else if f == AddField::Reminder {
                t == (App { calendar_target: Some(CalendarTarget::Reminder), mode: Mode::Calendar, ..s })
            } else {
                t == s
            }
        } else if (c == '-' || c == '+') && f == AddField::Priority {
            t == (App {
                add_form: AddForm {
                    priority: clamp_priority(form.priority + if c == '-' { -1int } else { 1int }) as i64,
                    ..form
                },
                ..s
            })
        } else if key.control {
            t == s
        } else {
            form_only(s, t) && form_with(
                form,
                t.add_form,
                f,
                crate::tui::editing::inserted(field_text(form, f), field_cursor(form, f), c),
                field_cursor(form, f) + 1,
            )
        },
        _ => e is Nothing && t == s,
    }
}

/// The keys in the form whose arithmetic stays within its integer types.
pub open spec fn add_key_safe(s: App, key: KeyEvent) -> bool {
    let form = s.add_form;
    let f = form.field;
    match key.code {
        KeyCode::Left | KeyCode::Right => if f == AddField::Project {
            form.project_index < i32::MAX && s.projects.len() <= i32::MAX
        } else if f == AddField::Priority {
            i64::MIN < form.priority < i64::MAX
        } else {
            cursor_movable(field_cursor(form, f), field_text(form, f).len() as int)
        },
        KeyCode::Char(c) => if c == 'o' && key.control {
            true
        } else if (c == '-' || c == '+') && f == AddField::Priority {
            i64::MIN < form.priority < i64::MAX
        } else if key.control {
            true
        } else {
            is_text_field(f) ==> field_cursor(form, f) < usize::MAX
        },
        _ => true,
    }
}

pub fn handle_add(app: &mut App, key: KeyEvent) -> (e: Effect)
    requires
        add_key_safe(*old(app), key),
    ensures
        add_outcome(*old(app), *final(app), key, e),
{
    match key.code {
        KeyCode::Esc => {
            app.mode = Mode::Normal;
            app.edit_id = None;
            Effect::Nothing
        },
        KeyCode::Tab | KeyCode::Down => {
            app.add_form.field = next_field(app.add_form.field);
            clamp_cursor(&mut app.add_form);
            Effect::Nothing
        },
        KeyCode::BackTab | KeyCode::Up => {
            app.add_form.field = prev_field(app.add_form.field);
            clamp_cursor(&mut app.add_form);
            Effect::Nothing
        },
        KeyCode::Enter => save_task(app),
        KeyCode::Left | KeyCode::Right => {
            let delta: i32 = if key.code == KeyCode::Left { -1 } else { 1 };
            if app.add_form.field == AddField::Project {
                cycle_project(app, delta);
            } else if app.add_form.field == AddField::Priority {
                app.add_form.priority = normalize_priority(app.add_form.priority + delta as i64);
            } else {
                move_cursor(&mut app.add_form, delta);
            }
            Effect::Nothing
        },
        KeyCode::Backspace => {
            backspace_field(&mut app.add_form);
            Effect::Nothing
        },
        KeyCode::Char(c) => {
            if c == 'o' && key.control {
                if app.add_form.field == AddField::Deadline {
                    app.calendar_target = Some(CalendarTarget::Deadline);
                    app.mode = Mode::Calendar;
                } else if app.add_form.field == AddField::Reminder {
                    app.calendar_target = Some(CalendarTarget::Reminder);
                    app.mode = Mode::Calendar;
                }
            } else if (c == '-' || c == '+') && app.add_form.field == AddField::Priority {
                let delta: i64 = if c == '-' { -1 } else { 1 };
                app.add_form.priority = normalize_priority(app.add_form.priority + delta);
            } else if !key.control {
                type_into_field(&mut app.add_form, c);
            }
            Effect::Nothing
        },
        _ => Effect::Nothing,
    }
}

} // verus!

verus! {

// ---------------------------------------------------------------------
// Calendar and time pickers

/// The picker's date moved by `delta` days and then kept from the past.
pub open spec fn calendar_moved_days(s: CalendarState, t: CalendarState, delta: int) -> bool {
    t.wf() && exists|moved: crate::civil::CivilDate|
        valid_date(moved) && date_day_number(moved) == date_day_number(s.date()) + delta && (t.date()
            == moved || crate::civil::date_before(moved, t.date()))
}

/// The picker's date moved by `delta` months and then kept from the past.
pub open spec fn calendar_moved_months(s: CalendarState, t: CalendarState, delta: int) -> bool {
    t.wf() && (t.date() == s.months_on(delta) || crate::civil::date_before(s.months_on(delta), t.date()))
}

pub open spec fn calendar_day_delta(code: KeyCode) -> int {
    match code {
        KeyCode::Left => -1,
        KeyCode::Right => 1,
        KeyCode::Up => -7,
        KeyCode::Down => 7,
        _ => 0,
    }
}

/// The time that the time picker starts from: the time already in the
/// field's text, else 09:00 for a deadline and 08:00 for a reminder.
pub open spec fn initial_time(form: AddForm, target: CalendarTarget) -> (u32, u32) {
    let existing = if target == CalendarTarget::Deadline { form.deadline@ } else { form.reminder@ };
    match time_in_text(existing) {
        Some(hm) => hm,
        None => if target == CalendarTarget::Deadline { (9u32, 0u32) } else { (8u32, 0u32) },
    }
}

/// What a key does in the date picker.
pub open spec fn calendar_outcome(s: App, t: App, key: KeyEvent, e: Effect) -> bool {
    &&& e is Nothing
    &&& match key.code {
        KeyCode::Esc => t == (App { mode: Mode::AddTask, ..s }),
        KeyCode::Left | KeyCode::Right | KeyCode::Up | KeyCode::Down => t == (App {
            calendar: t.calendar,
            ..s
        }) && calendar_moved_days(s.calendar, t.calendar, calendar_day_delta(key.code)),
        KeyCode::PageUp => t == (App { calendar: t.calendar, ..s }) && calendar_moved_months(
            s.calendar,
            t.calendar,
            -1,
        ),
        KeyCode::PageDown => t == (App { calendar: t.calendar, ..s }) && calendar_moved_months(
            s.calendar,
            t.calendar,
            1,
        ),
        KeyCode::Enter => match s.calendar_target {
            Some(target) => {
                let hm = initial_time(s.add_form, target);
                t == (App {
                    time_picker: TimePicker { hour: hm.0, minute: hm.1, field: TimeField::Hour },
                    mode: Mode::Time,
                    ..s
                })
            },
            None => t == s,
        },
        _ => t == s,
    }
}

/// The keys of the date picker that keep the dates within chrono's range.
pub open spec fn calendar_key_safe(s: App, key: KeyEvent) -> bool {
    match key.code {
        KeyCode::Left | KeyCode::Right | KeyCode::Up | KeyCode::Down => first_day_number()
            <= date_day_number(s.calendar.date()) + calendar_day_delta(key.code)
            <= last_day_number(),
        KeyCode::PageUp => s.calendar.months_movable(-1),
        KeyCode::PageDown => s.calendar.months_movable(1),
        _ => true,
    }
}

pub fn handle_calendar(app: &mut App, key: KeyEvent) -> (e: Effect)
    requires
        old(app).wf(),
        calendar_key_safe(*old(app), key),
    ensures
        calendar_outcome(*old(app), *final(app), key, e),
        final(app).wf(),
{
    match key.code {
        KeyCode::Esc => {
            app.mode = Mode::AddTask;
        },
        KeyCode::Left => app.calendar.move_days(-1),
        KeyCode::Right => app.calendar.move_days(1),
        KeyCode::Up => app.calendar.move_days(-7),
        KeyCode::Down => app.calendar.move_days(7),
        KeyCode::PageUp => app.calendar.move_months(-1),
        KeyCode::PageDown => app.calendar.move_months(1),
        KeyCode::Enter => {
            match app.calendar_target {
                Some(target) => {
                    let default_time: (u32, u32) = match target {
                        CalendarTarget::Deadline => (9, 0),
                        CalendarTarget::Reminder => (8, 0),
                    };
                    let existing = match target {
                        CalendarTarget::Deadline => &app.add_form.deadline,
                        CalendarTarget::Reminder => &app.add_form.reminder,
                    };
                    let time = match extract_time(existing.as_str()) {
                        Some(hm) => hm,
                        None => default_time,
                    };
                    app.time_picker = TimePicker { hour: time.0, minute: time.1, field: TimeField::Hour };
                    app.mode = Mode::Time;
                },
                None => {},
            }
        },
        _ => {},
    }
    Effect::Nothing
}

/// The text the time picker writes into a date field.
pub open spec fn picked_text(s: App) -> Seq<char> {
    date_text(s.calendar.date()) + seq![' '] + hour_minute_text(
        s.time_picker.hour as int,
        s.time_picker.minute as int,
    )
}

/// What a key does in the time picker.
pub open spec fn time_outcome(s: App, t: App, key: KeyEvent, e: Effect) -> bool {
    &&& e is Nothing
    &&& match key.code {
        KeyCode::Esc => t == (App { mode: Mode::Calendar, ..s }),
        KeyCode::Left | KeyCode::Right | KeyCode::Tab => t == (App {
            time_picker: TimePicker {
                field: if s.time_picker.field == TimeField::Hour { TimeField::Minute } else { TimeField::Hour },
                ..s.time_picker
            },
            ..s
        }),
        KeyCode::Up => t == (App { time_picker: time_stepped(s.time_picker, 1), ..s }),
        KeyCode::Down => t == (App { time_picker: time_stepped(s.time_picker, -1), ..s }),
        KeyCode::PageUp => t == (App { time_picker: time_stepped(s.time_picker, 5), ..s }),
        KeyCode::PageDown => t == (App { time_picker: time_stepped(s.time_picker, -5), ..s }),
        KeyCode::Enter => match s.calendar_target {
            Some(CalendarTarget::Deadline) => t == (App {
                add_form: AddForm { deadline: t.add_form.deadline, ..s.add_form },
                mode: Mode::AddTask,
                ..s
            }) && t.add_form.deadline@ == picked_text(s),
            Some(CalendarTarget::Reminder) => t == (App {
                add_form: AddForm { reminder: t.add_form.reminder, ..s.add_form },
                mode: Mode::AddTask,
                ..s
            }) && t.add_form.reminder@ == picked_text(s),
            None => t == (App { mode: Mode::AddTask, ..s }),
        },
        _ => t == s,
    }
}

fn picked_date_time(app: &App) -> (r: String)
    requires
        app.wf(),
    ensures
        r@ == picked_text(*app),
{
    let date = app.calendar.selected_date();
    let mut text = format_date(date);
    push_char(&mut text, ' ');
    append_chars(&mut text, &hour_minute_chars(app.time_picker.hour, app.time_picker.minute));
    assert(text@ =~= picked_text(*app));
    text
}

pub fn handle_time(app: &mut App, key: KeyEvent) -> (e: Effect)
    requires
        old(app).wf(),
    ensures
        time_outcome(*old(app), *final(app), key, e),
        final(app).wf(),
{
    match key.code {
        KeyCode::Esc => {
            app.mode = Mode::Calendar;
        },
        KeyCode::Left | KeyCode::Right | KeyCode::Tab => {
            app.time_picker.field = match app.time_picker.field {
                TimeField::Hour => TimeField::Minute,
                TimeField::Minute => TimeField::Hour,
            };
        },
        KeyCode::Up => increment_time(&mut app.time_picker, 1),
        KeyCode::Down => increment_time(&mut app.time_picker, -1),
        KeyCode::PageUp => increment_time(&mut app.time_picker, 5),
        KeyCode::PageDown => increment_time(&mut app.time_picker, -5),
        KeyCode::Enter => {
            match app.calendar_target {
                Some(target) => {
                    let updated = picked_date_time(app);
                    match target {
                        CalendarTarget::Deadline => app.add_form.deadline = updated,
                        CalendarTarget::Reminder => app.add_form.reminder = updated,
                    }
                },
                None => {},
            }
            app.mode = Mode::AddTask;
        },
        _ => {},
    }
    Effect::Nothing
}

// ---------------------------------------------------------------------
// Project form

/// What a key does in the project form.
pub open spec fn project_outcome(s: App, t: App, key: KeyEvent, e: Effect) -> bool {
    let form = s.project_form;
    match key.code {
        KeyCode::Esc => e is Nothing && t == (App {
            mode: Mode::Normal,
            project_form: t.project_form,
            ..s
        }) && t.project_form.name@.len() == 0 && t.project_form.cursor == 0
            && t.project_form.edit_id is None,
        KeyCode::Enter => if trim_seq(form.name@).len() == 0 {
            status_set(s, t, "Project name is required"@) && e is Nothing
        } else {
            t == s && (e matches Effect::SaveProject { edit_id, name } && edit_id == form.edit_id
                && name@ == trim_seq(form.name@))
        },
        KeyCode::Left | KeyCode::Right => e is Nothing && t == (App {
            project_form: ProjectForm {
                cursor: cursor_moved(
                    form.cursor as int,
                    if key.code == KeyCode::Left { -1 } else { 1 },
                    form.name@.len() as int,
                ) as usize,
                ..form
            },
            ..s
        }),
        KeyCode::Backspace => e is Nothing && if form.cursor > 0 && form.cursor - 1 < form.name@.len() {
            t == (App {
                project_form: ProjectForm {
                    name: t.project_form.name,
                    cursor: (form.cursor - 1) as usize,
                    ..form
                },
                ..s
            }) && t.project_form.name@ == deleted(form.name@, form.cursor - 1)
        } else {
            t == s
        },
        KeyCode::Char(c) => e is Nothing && if key.control {
            t == s
        } else {
            t == (App {
                project_form: ProjectForm {
                    name: t.project_form.name,
                    cursor: (form.cursor + 1) as usize,
                    ..form
                },
                ..s
            }) && t.project_form.name@ == inserted(form.name@, form.cursor as int, c)
        },
        _ => e is Nothing && t == s,
    }
}

pub open spec fn project_key_safe(s: App, key: KeyEvent) -> bool {
    match key.code {
        KeyCode::Left | KeyCode::Right => cursor_movable(
            s.project_form.cursor as int,
            s.project_form.name@.len() as int,
        ),
        KeyCode::Char(_) => key.control || s.project_form.cursor < usize::MAX,
        _ => true,
    }
}

pub fn handle_project(app: &mut App, key: KeyEvent) -> (e: Effect)
    requires
        project_key_safe(*old(app), key),
    ensures
        project_outcome(*old(app), *final(app), key, e),
{
    match key.code {
        KeyCode::Esc => {
            app.mode = Mode::Normal;
            app.project_form = ProjectForm::default();
            Effect::Nothing
        },
        KeyCode::Enter => {
            let name = string_from_chars(&trim_str(app.project_form.name.as_str()));
            if name.as_str().is_empty() {
                app.set_status("Project name is required".to_owned());
                return Effect::Nothing;
            }
            Effect::SaveProject { edit_id: app.project_form.edit_id, name: name }
        },
        KeyCode::Left | KeyCode::Right => {
            let delta: i32 = if key.code == KeyCode::Left { -1 } else { 1 };
            let len = char_count(app.project_form.name.as_str());
            app.project_form.cursor = moved_cursor(app.project_form.cursor, delta, len);
            Effect::Nothing
        },
        KeyCode::Backspace => {
            if app.project_form.cursor > 0 {
                let len = char_count(app.project_form.name.as_str());
                if app.project_form.cursor - 1 < len {
                    delete_char(&mut app.project_form.name, app.project_form.cursor - 1);
                    app.project_form.cursor = app.project_form.cursor - 1;
                }
            }
            Effect::Nothing
        },
        KeyCode::Char(c) => {
            if !key.control {
                insert_char(&mut app.project_form.name, app.project_form.cursor, c);
                app.project_form.cursor = app.project_form.cursor + 1;
            }
            Effect::Nothing
        },
        _ => Effect::Nothing,
    }
}

// ---------------------------------------------------------------------
// Dispatch

/// The keys whose handling stays within the integer types and chrono's
/// date range.
pub open spec fn key_is_safe(s: App, key: KeyEvent) -> bool {
    match s.mode {
        Mode::AddTask => add_key_safe(s, key),
        Mode::Calendar => calendar_key_safe(s, key),
        Mode::Project => project_key_safe(s, key),
        _ => true,
    }
}

/// What a key does, by mode.
pub open spec fn key_outcome(s: App, t: App, key: KeyEvent, e: Effect) -> bool {
    match s.mode {
        Mode::Normal => normal_outcome(s, t, key, e),
        Mode::Search => search_outcome(s, t, key, e),
        Mode::AddTask => add_outcome(s, t, key, e),
        Mode::Calendar => calendar_outcome(s, t, key, e),
        Mode::Time => time_outcome(s, t, key, e),
        Mode::Project => project_outcome(s, t, key, e),
    }
}

fn cursor_movable_exec(cursor: usize, text: &String) -> (r: bool)
    ensures
        r == cursor_movable(cursor as int, text@.len() as int),
{
    cursor < i32::MAX as usize && char_count(text.as_str()) <= i32::MAX as usize
}

/// Whether `key` keeps the state within the ranges that `handle_key` can
/// compute in: what a caller tests before handing the key over.
pub fn key_in_range(app: &App, key: KeyEvent) -> (r: bool)
    requires
        app.wf(),
    ensures
        r == key_is_safe(*app, key),
{
    match app.mode {
        Mode::AddTask => {
            let form = &app.add_form;
            match key.code {
                KeyCode::Left | KeyCode::Right => match form.field {
                    AddField::Project => form.project_index < i32::MAX as usize && app.projects.len()
                        <= i32::MAX as usize,
                    AddField::Priority => i64::MIN < form.priority && form.priority < i64::MAX,
                    AddField::Title => cursor_movable_exec(form.cursor_title, &form.title),
                    AddField::Deadline => cursor_movable_exec(form.cursor_deadline, &form.deadline),
                    AddField::Reminder => cursor_movable_exec(form.cursor_reminder, &form.reminder),
                },
                KeyCode::Char(c) => {
                    if c == 'o' && key.control {
                        true
                    } else if (c == '-' || c == '+') && form.field == AddField::Priority {
                        i64::MIN < form.priority && form.priority < i64::MAX
                    } else if key.control {
                        true
                    } else {
                        match form.field {
                            AddField::Title => form.cursor_title < usize::MAX,
                            AddField::Deadline => form.cursor_deadline < usize::MAX,
                            AddField::Reminder => form.cursor_reminder < usize::MAX,
                            _ => true,
                        }
                    }
                },
                _ => true,
            }
        },
        Mode::Calendar => {
            let delta: i64 = match key.code {
                KeyCode::Left => -1,
                KeyCode::Right => 1,
                KeyCode::Up => -7,
                KeyCode::Down => 7,
                KeyCode::PageUp => {
                    return app.calendar.can_move_months(-1);
                },
                KeyCode::PageDown => {
                    return app.calendar.can_move_months(1);
                },
                _ => {
                    return true;
                },
            };
            let first = day_count(CivilDate { year: MIN_YEAR, month: 1, day: 1 });
            let last = day_count(CivilDate { year: MAX_YEAR, month: 12, day: 31 });
            let n = day_count(app.calendar.selected_date());
            first <= n + delta && n + delta <= last
        },
        Mode::Project => match key.code {
            KeyCode::Left | KeyCode::Right => cursor_movable_exec(app.project_form.cursor, &app.project_form.name),
            KeyCode::Char(_) => key.control || app.project_form.cursor < usize::MAX,
            _ => true,
        },
        _ => true,
    }
}

pub fn handle_key(app: &mut App, key: KeyEvent) -> (e: Effect)
    requires
        old(app).wf(),
        key_is_safe(*old(app), key),
    ensures
        key_outcome(*old(app), *final(app), key, e),
        final(app).wf(),
{
    match app.mode {
        Mode::Normal => handle_normal(app, key),
        Mode::Search => handle_search(app, key),
        Mode::AddTask => handle_add(app, key),
        Mode::Calendar => handle_calendar(app, key),
        Mode::Time => handle_time(app, key),
        Mode::Project => handle_project(app, key),
    }
}

} // verus!

verus! {

// ---------------------------------------------------------------------
// Outcomes of the stored changes

/// The first position in `col` of a task with id `id`.
pub open spec fn position_of_id(tasks: Seq<Task>, col: Seq<usize>, id: i64) -> Option<int> {
    if exists|k: int| 0 <= k < col.len() && col[k] < tasks.len() && tasks[col[k] as int].id == id {
        Some(
            choose|k: int|
                0 <= k < col.len() && col[k] < tasks.len() && tasks[col[k] as int].id == id
                    && forall|j: int|
                    0 <= j < k ==> !(col[j] < tasks.len() && tasks[col[j] as int].id == id),
        )
    } else {
        None
    }
}

/// After a task moved to another column: the reloaded tasks, the board on
/// that column, and the selection on the moved task (or the top).
pub fn after_move(app: &mut App, tasks: Vec<Task>, id: i64, column: usize)
    requires
        old(app).wf(),
        column <= 2,
    ensures
        final(app).wf(),
        final(app).tasks@ == tasks@,
        final(app).board.column == column,
        final(app).board.row == match position_of_id(tasks@, final(app).column(column as int), id) {
            Some(k) => k as usize,
            None => 0usize,
        },
        *final(app) == (App { tasks: final(app).tasks, board: final(app).board, ..*old(app) }),
{
    app.apply_tasks(tasks);
    app.board.column = column;
    let cols = app.board_indices();
    let row = match find_position(&app.tasks, &cols[column], id) {
        Some(k) => k,
        None => 0,
    };
    app.board.row = row;
}

fn find_position(tasks: &Vec<Task>, col: &Vec<usize>, id: i64) -> (r: Option<usize>)
    ensures
        match position_of_id(tasks@, col@, id) {
            Some(k) => r == Some(k as usize),
            None => r is None,
        },
{
    let mut k: usize = 0;
    while k < col.len()
        invariant
            k <= col.len(),
            forall|j: int|
                0 <= j < k ==> !(col@[j] < tasks@.len() && tasks@[col@[j] as int].id == id),
        decreases col.len() - k,
    {
        let idx = col[k];
        if idx < tasks.len() && tasks[idx].id == id {
            proof {
                let tk = tasks@;
                let c = choose|i: int|
                    0 <= i < col@.len() && col@[i] < tk.len() && tk[col@[i] as int].id == id
                        && forall|j: int| 0 <= j < i ==> !(col@[j] < tk.len() && tk[col@[j] as int].id == id);
                assert(c == k) by {
                    if c < k {
                        assert(!(col@[c] < tk.len() && tk[col@[c] as int].id == id));
                    } else if c > k {
                        assert(!(col@[k as int] < tk.len() && tk[col@[k as int] as int].id == id));
                    }
                }
            }
            return Some(k);
        }
        k = k + 1;
    }
    None
}

/// After the form's task was stored: a message, the reloaded tasks (when
/// reloading worked), and back to the board.
pub fn after_task_saved(app: &mut App, tasks: Option<Vec<Task>>)
    requires
        old(app).wf(),
    ensures
        final(app).wf(),
        final(app).status@ == if old(app).edit_id is Some { "Task updated"@ } else { "Task added"@ },
        final(app).mode == Mode::Normal,
        final(app).edit_id is None,
        match tasks {
            Some(t) => final(app).tasks@ == t@ && final(app).board.row == row_within(
                old(app).board.row as int,
                final(app).column(old(app).board.column as int).len() as int,
            ),
            None => final(app).tasks@ == old(app).tasks@ && final(app).board == old(app).board,
        },
        *final(app) == (App {
            status: final(app).status,
            tasks: final(app).tasks,
            board: final(app).board,
            mode: Mode::Normal,
            edit_id: None,
            ..*old(app)
        }),
{
    if app.edit_id.is_some() {
        app.set_status("Task updated".to_owned());
    } else {
        app.set_status("Task added".to_owned());
    }
    match tasks {
        Some(t) => app.apply_tasks(t),
        None => {},
    }
    app.mode = Mode::Normal;
    app.edit_id = None;
}

/// A rename that changed no row means the project is gone.
pub fn rename_outcome(changed: usize, id: i64) -> (r: Result<i64, String>)
    ensures
        changed != 0 ==> r == Ok::<i64, String>(id),
        changed == 0 ==> (r matches Err(m) && m@ == "No project with that id"@),
{
    if changed == 0 {
        Err("No project with that id".to_owned())
    } else {
        Ok(id)
    }
}

/// After a project was stored, and the project list and the project's
/// tasks were reloaded (`apply_projects`, `select_project_by_id`): back to the board, the form
/// cleared, and a message.
pub fn after_project_saved(app: &mut App, tasks: Option<Vec<Task>>)
    requires
        old(app).wf(),
    ensures
        final(app).wf(),
        final(app).mode == Mode::Normal,
        final(app).project_form.name@.len() == 0,
        final(app).project_form.cursor == 0,
        final(app).project_form.edit_id is None,
        final(app).status@ == "Project saved"@,
        match tasks {
            Some(t) => final(app).tasks@ == t@,
            None => final(app).tasks@ == old(app).tasks@ && final(app).board == old(app).board,
        },
        *final(app) == (App {
            tasks: final(app).tasks,
            board: final(app).board,
            mode: Mode::Normal,
            project_form: final(app).project_form,
            status: final(app).status,
            ..*old(app)
        }),
{
    match tasks {
        Some(t) => app.apply_tasks(t),
        None => {},
    }
    app.mode = Mode::Normal;
    app.project_form = ProjectForm::default();
    app.set_status("Project saved".to_owned());
}

/// After a project was deleted (and the project list reloaded): the
/// reloaded tasks and a message.
pub fn after_project_deleted(app: &mut App, tasks: Option<Vec<Task>>)
    requires
        old(app).wf(),
    ensures
        final(app).wf(),
        final(app).status@ == "Project deleted"@,
        match tasks {
            Some(t) => final(app).tasks@ == t@,
            None => final(app).tasks@ == old(app).tasks@ && final(app).board == old(app).board,
        },
        *final(app) == (App {
            tasks: final(app).tasks,
            board: final(app).board,
            status: final(app).status,
            ..*old(app)
        }),
{
    match tasks {
        Some(t) => app.apply_tasks(t),
        None => {},
    }
    app.set_status("Project deleted".to_owned());
}

} // verus!

verus! {

/// A key never changes the loaded tasks or projects itself: every change
/// to them goes out as an effect, and comes back by a reload.
pub proof fn lemma_keys_keep_data(s: App, t: App, key: KeyEvent, e: Effect)
    requires
        key_outcome(s, t, key, e),
    ensures
        t.tasks == s.tasks,
        t.projects == s.projects,
{
}

} // verus!

verus! {

/// Picking a project: Enter on the project list, in normal mode, asks for
/// the board's tasks to be loaded again (for the project now selected,
/// which Enter leaves as it is) and puts the selection on the top row.
pub proof fn lemma_project_enter_reloads(s: App, t: App, key: KeyEvent, e: Effect)
    requires
        key_outcome(s, t, key, e),
        s.mode == Mode::Normal,
        s.focus == Focus::Projects,
        key.code == KeyCode::Enter,
    ensures
        e is ReloadTasks,
        t.board.row == 0,
        t.selected_project == s.selected_project,
        t.projects == s.projects,
        t.task_filter_spec() == s.task_filter_spec(),
{
}

} // verus!
