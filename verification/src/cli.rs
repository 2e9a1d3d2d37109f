//! The command line: its commands, the checks and conversions of their
//! arguments, and the text that the commands print.
use vstd::prelude::*;
use vstd::string::StringExecFns;
use crate::civil::{
    CivilDate, add_days, date_before, date_day_number, date_text, first_day_number,
    last_day_number, local_date_time_of, local_instants, valid_date, CivilDateTime, parsed_date_time,
    convertible_instant, is_valid_date, unix_seconds, valid_time, within_a_day, day_start_seconds,
    is_date_before, format_date, valid_date_time, LocalTime, instant_in_range,
};
use crate::task::{
    Task, parse_datetime_local, invalid_datetime_message, moved_by_months, shown_datetime,
    ambiguous_time_message, normalize_priority, clamp_priority, priority_label,
    priority_label_text, status_label, status_label_text, format_datetime, earliest_of,
    earliest_instant,
};
use crate::text::{
    append_chars, chars_of, lemma_chars_within_bytes, utf8_len, decimal_int, i64_digits, lowered, pad_right, pad_right_seq,
    repeat_char, str_equal, string_from_chars, to_lowercase, trim_seq, trim_str,
};

verus! {

/// A parsed command line.
pub struct Cli {
    pub command: Commands,
}

/// The commands of the program.
pub enum Commands {
    /// Add a task
    Add {
        title: String,
        description: Option<String>,
        project: Option<String>,
        priority: String,
        deadline: Option<String>,
        remind: Option<String>,
        repeat: Option<String>,
    },
    /// List tasks
    List,
    /// Mark task as done
    Done { id: i64 },
    /// Delete a task
    Delete { id: i64 },
    /// Send reminder notifications for due tasks
    Notify { snooze_minutes: i64 },
    /// Launch interactive UI
    Ui,
    /// Show tasks due today and upcoming (next 3 days)
    Today,
    /// Show agenda for the coming week (next 7 days)
    Week,
    /// Manage projects
    Project { command: ProjectCommands },
    /// Assign or clear a project for a task
    SetProject { id: i64, project: Option<String> },
}

/// The subcommands of `project`.
pub enum ProjectCommands {
    /// Add a project
    Add { name: String },
    /// List projects
    List,
    /// Rename a project
    Rename { id: i64, name: String },
    /// Delete a project (tasks become unassigned)
    Delete { id: i64 },
}

/// The fields of a task to be added, checked and converted.
pub struct NewTask {
    pub title: String,
    pub description: Option<String>,
    pub project_id: Option<i64>,
    pub priority: i64,
    pub deadline: Option<i64>,
    pub reminder: Option<i64>,
    pub recurrence: Option<String>,
}

/// The number of days that `today` and `week` look ahead.
pub const TODAY_WINDOW_DAYS: i64 = 3;

pub const WEEK_WINDOW_DAYS: i64 = 7;

/// What reading an optional date-time argument can give: nothing for no
/// argument; the format error for a text that is not `YYYY-MM-DD HH:MM`;
/// for a parsed one, the local-clock error or an instant within a day of
/// the parsed date-time read as UTC (which one depends on the time zone).
pub open spec fn datetime_result(input: Option<Seq<char>>, out: Result<Option<i64>, Seq<char>>) -> bool {
    match input {
        None => out == Ok::<Option<i64>, Seq<char>>(None),
        Some(s) => match parsed_date_time(s) {
            None => out == Err::<Option<i64>, Seq<char>>(invalid_datetime_message(s)),
            Some(dt) => out == Err::<Option<i64>, Seq<char>>(ambiguous_time_message(s)) || (
            out matches Ok(Some(t)) && instant_in_range(t) && within_a_day(t as int, unix_seconds(dt))),
        },
    }
}

/// A result with its error taken by its text.
pub open spec fn result_view(r: Result<Option<i64>, String>) -> Result<Option<i64>, Seq<char>> {
    match r {
        Ok(v) => Ok(v),
        Err(e) => Err(e@),
    }
}

pub fn parse_optional_datetime(input: Option<String>) -> (r: Result<Option<i64>, String>)
    ensures
        datetime_result(opt_view(input), result_view(r)),
{
    match input {
        Some(value) => match parse_datetime_local(value.as_str()) {
            Ok(ts) => Ok(Some(ts)),
            Err(e) => Err(e),
        },
        None => Ok(None),
    }
}

/// `s` cut to at most `max` bytes' worth for display: kept whole when its
/// UTF-8 length fits, else its first `max - 3` characters and `...`, or
/// only dots when `max` is 3 or less.
pub open spec fn truncated(s: Seq<char>, max: nat) -> Seq<char> {
    if vstd::utf8::encode_utf8(s).len() <= max {
        s
    } else if max <= 3 {
        repeat_char('.', max)
    } else {
        let keep = (max - 3) as int;
        (if keep < s.len() { s.take(keep) } else { s }) + "..."@
    }
}

/// A truncated text never has more than `max` characters, and a text that
/// fits in `max` bytes is kept as it is.
pub proof fn lemma_truncated_fits(s: Seq<char>, max: nat)
    ensures
        truncated(s, max).len() <= max,
        utf8_len(s) <= max ==> truncated(s, max) == s,
{
    reveal_strlit("...");
    lemma_chars_within_bytes(s);
}

pub fn truncate(input: &str, max: usize) -> (r: String)
    ensures
        r@ == truncated(input@, max as nat),
{
    if input.as_bytes().len() <= max {
        return input.to_owned();
    }
    if max <= 3 {
        let mut dots: Vec<char> = Vec::new();
        let mut i: usize = 0;
        while i < max
            invariant
                i <= max,
                dots@ == repeat_char('.', i as nat),
            decreases max - i,
        {
            dots.push('.');
            i = i + 1;
            assert(dots@ =~= repeat_char('.', i as nat));
        }
        return string_from_chars(&dots);
    }
    let cs = chars_of(input);
    let keep = max - 3;
    let mut out: Vec<char> = Vec::new();
    let mut i: usize = 0;
    while i < keep && i < cs.len()
        invariant
            i <= keep,
            i <= cs.len(),
            out@ == cs@.take(i as int),
        decreases keep - i,
    {
        out.push(cs[i]);
        i = i + 1;
        assert(out@ =~= cs@.take(i as int));
    }
    if keep >= cs.len() {
        assert(cs@.take(i as int) =~= cs@);
    }
    let mut r = string_from_chars(&out);
    r.append("...");
    r
}

/// `'-'` and `'_'` read as spaces.
pub open spec fn dashes_to_spaces(s: Seq<char>) -> Seq<char> {
    s.map_values(|c: char| if c == '-' || c == '_' { ' ' } else { c })
}

/// The priority that a normalized name stands for.
pub open spec fn priority_of_name(n: Seq<char>) -> Option<int> {
    if n == "very high"@ || n == "veryhigh"@ || n == "vh"@ || n == "4"@ {
        Some(4)
    } else if n == "medium high"@ || n == "mediumhigh"@ || n == "mh"@ || n == "3"@ {
        Some(3)
    } else if n == "high"@ || n == "h"@ || n == "2"@ {
        Some(2)
    } else if n == "normal"@ || n == "n"@ || n == "1"@ {
        Some(1)
    } else if n == "low"@ || n == "l"@ || n == "0"@ {
        Some(0)
    } else {
        None
    }
}

/// How a priority argument is normalized before it is looked up.
pub open spec fn priority_name(input: Seq<char>) -> Seq<char> {
    dashes_to_spaces(lowered(trim_seq(input)))
}

pub open spec fn invalid_priority_message(input: Seq<char>) -> Seq<char> {
    "Invalid priority: "@ + input + " (use very high, medium high, high, normal, low)"@
}

fn dashes_to_spaces_exec(s: &str) -> (r: String)
    ensures
        r@ == dashes_to_spaces(s@),
{
    let cs = chars_of(s);
    let mut out: Vec<char> = Vec::new();
    let mut i: usize = 0;
    while i < cs.len()
        invariant
            i <= cs.len(),
            out@ == dashes_to_spaces(cs@.take(i as int)),
        decreases cs.len() - i,
    {
        let c = cs[i];
        out.push(if c == '-' || c == '_' { ' ' } else { c });
        i = i + 1;
        assert(out@ =~= dashes_to_spaces(cs@.take(i as int)));
    }
    assert(cs@.take(cs@.len() as int) =~= cs@);
    string_from_chars(&out)
}

fn is_one_of(n: &str, a: &str, b: &str, c: &str, d: &str) -> (r: bool)
    ensures
        r == (n@ == a@ || n@ == b@ || n@ == c@ || n@ == d@),
{
    str_equal(n, a) || str_equal(n, b) || str_equal(n, c) || str_equal(n, d)
}

proof fn lemma_plain_name(n: Seq<char>)
    requires
        n.len() > 0,
        !crate::text::is_white_space(n[0]),
        !crate::text::is_white_space(n.last()),
        crate::text::is_ascii_text(n),
    ensures
        priority_name(n) == dashes_to_spaces(crate::text::ascii_lowercase(n)),
{
    assert(crate::text::trim_start_seq(n) == n);
    assert(crate::text::trim_end_seq(n) == n);
}

/// Every priority level is named by its digit and by the label it is shown
/// with: reading the decimal text of a level from 0 to 4, or its label
/// (`Low`, `Normal`, `High`, `Medium High`, `Very High`), gives that level.
pub proof fn lemma_priority_names(k: int)
    requires
        0 <= k <= 4,
    ensures
        priority_of_name(priority_name(decimal_int(k))) == Some(k),
        priority_of_name(priority_name(priority_label_text(k))) == Some(k),
{
    reveal_strlit("very high");
    reveal_strlit("veryhigh");
    reveal_strlit("vh");
    reveal_strlit("4");
    reveal_strlit("medium high");
    reveal_strlit("mediumhigh");
    reveal_strlit("mh");
    reveal_strlit("3");
    reveal_strlit("high");
    reveal_strlit("h");
    reveal_strlit("2");
    reveal_strlit("normal");
    reveal_strlit("n");
    reveal_strlit("1");
    reveal_strlit("low");
    reveal_strlit("l");
    reveal_strlit("0");
    reveal_strlit("Very High");
    reveal_strlit("Medium High");
    reveal_strlit("High");
    reveal_strlit("Normal");
    reveal_strlit("Low");
    let d = decimal_int(k);
    assert(d == seq![crate::text::digit_char(k as nat)]);
    lemma_plain_name(d);
    assert(dashes_to_spaces(crate::text::ascii_lowercase(d)) =~= d);
    let l = priority_label_text(k);
    lemma_plain_name(l);
    let ll = dashes_to_spaces(crate::text::ascii_lowercase(l));
    if k == 4 {
        assert(d =~= "4"@);
        assert(ll =~= "very high"@);
    } else if k == 3 {
        assert(d =~= "3"@);
        assert(ll =~= "medium high"@);
    } else if k == 2 {
        assert(d =~= "2"@);
        assert(ll =~= "high"@);
    } else if k == 1 {
        assert(d =~= "1"@);
        assert(ll =~= "normal"@);
    } else {
        assert(d =~= "0"@);
        assert(ll =~= "low"@);
    }
}

/// Reads a priority name (`very high`, `medium high`, `high`, `normal`,
/// `low`, their short forms, or `0` to `4`).
pub fn parse_priority(input: &str) -> (r: Result<i64, String>)
    ensures
        match priority_of_name(priority_name(input@)) {
            Some(v) => r == Ok::<i64, String>(clamp_priority(v) as i64),
            None => r matches Err(e) && e@ == invalid_priority_message(input@),
        },
{
    let trimmed = string_from_chars(&trim_str(input));
    let lower = to_lowercase(trimmed.as_str());
    let normalized = dashes_to_spaces_exec(lower.as_str());
    let n = normalized.as_str();
    let value: i64 = if is_one_of(n, "very high", "veryhigh", "vh", "4") {
        4
    } else if is_one_of(n, "medium high", "mediumhigh", "mh", "3") {
        3
    } else if is_one_of(n, "high", "h", "2", "2") {
        2
    } else if is_one_of(n, "normal", "n", "1", "1") {
        1
    } else if is_one_of(n, "low", "l", "0", "0") {
        0
    } else {
        let mut m = "Invalid priority: ".to_owned();
        m.append(input);
        m.append(" (use very high, medium high, high, normal, low)");
        return Err(m);
    };
    Ok(normalize_priority(value))
}

pub open spec fn is_recurrence_name(n: Seq<char>) -> bool {
    n == "daily"@ || n == "weekly"@ || n == "monthly"@ || n == "yearly"@
}

pub open spec fn invalid_recurrence_message(value: Seq<char>) -> Seq<char> {
    "Invalid recurrence: "@ + value + " (use daily, weekly, monthly, yearly)"@
}

/// Reads a `--repeat` argument: nothing or blank means no recurrence; else
/// one of `daily`, `weekly`, `monthly`, `yearly` in any case.
pub fn parse_recurrence(input: Option<&str>) -> (r: Result<Option<String>, String>)
    ensures
        input is None ==> r == Ok::<Option<String>, String>(None),
        input matches Some(v) ==> {
            let t = trim_seq(v@);
            let n = lowered(t);
            &&& t.len() == 0 ==> r == Ok::<Option<String>, String>(None)
            &&& t.len() != 0 && is_recurrence_name(n) ==> (r matches Ok(Some(s)) && s@ == n)
            &&& t.len() != 0 && !is_recurrence_name(n) ==> (r matches Err(e) && e@
                == invalid_recurrence_message(t))
        },
{
    let value = match input {
        Some(v) => string_from_chars(&trim_str(v)),
        None => {
            return Ok(None);
        },
    };
    if value.as_str().is_empty() {
        return Ok(None);
    }
    let normalized = to_lowercase(value.as_str());
    if is_one_of(normalized.as_str(), "daily", "weekly", "monthly", "yearly") {
        Ok(Some(normalized))
    } else {
        let mut m = "Invalid recurrence: ".to_owned();
        m.append(value.as_str());
        m.append(" (use daily, weekly, monthly, yearly)");
        Err(m)
    }
}

} // verus!

verus! {

pub open spec fn table_header() -> Seq<char> {
    "ID  Title                       Priority      Deadline          Reminder          Status"@
}

pub open spec fn table_rule() -> Seq<char> {
    "--  --------------------------  ------------  ----------------  ----------------  ------"@
}

/// One row of `todo list`: id, title cut to 26, priority, deadline,
/// reminder and status in columns of 3, 26, 12, 16, 16 and 6 characters.
pub open spec fn task_row_text(task: Task, deadline: Seq<char>, reminder: Seq<char>) -> Seq<char> {
    pad_right_seq(decimal_int(task.id as int), 3) + " "@ + pad_right_seq(truncated(task.title@, 26), 26)
        + " "@ + pad_right_seq(priority_label_text(task.priority as int), 12) + " "@
        + pad_right_seq(deadline, 16) + " "@ + pad_right_seq(reminder, 16) + " "@ + pad_right_seq(
        status_label_text(task.status),
        6,
    )
}

fn push_str_chars(r: &mut Vec<char>, s: &str)
    ensures
        final(r)@ == old(r)@ + s@,
{
    let cs = chars_of(s);
    let mut i: usize = 0;
    while i < cs.len()
        invariant
            i <= cs.len(),
            r@ == old(r)@ + cs@.take(i as int),
        decreases cs.len() - i,
    {
        r.push(cs[i]);
        i = i + 1;
        assert(r@ =~= old(r)@ + cs@.take(i as int));
    }
    assert(cs@.take(cs@.len() as int) =~= cs@);
}

fn push_padded(r: &mut Vec<char>, s: &str, width: usize)
    ensures
        final(r)@ == old(r)@ + pad_right_seq(s@, width as nat),
{
    let padded = pad_right(&chars_of(s), width);
    let mut i: usize = 0;
    while i < padded.len()
        invariant
            i <= padded.len(),
            r@ == old(r)@ + padded@.take(i as int),
        decreases padded.len() - i,
    {
        r.push(padded[i]);
        i = i + 1;
        assert(r@ =~= old(r)@ + padded@.take(i as int));
    }
    assert(padded@.take(padded@.len() as int) =~= padded@);
}

/// One row of the task table, given the deadline and reminder texts.
pub fn task_row(task: &Task, deadline: &str, reminder: &str) -> (r: String)
    ensures
        r@ == task_row_text(*task, deadline@, reminder@),
{
    let mut row: Vec<char> = Vec::new();
    let id = string_from_chars(&i64_digits(task.id));
    push_padded(&mut row, id.as_str(), 3);
    row.push(' ');
    let title = truncate(task.title.as_str(), 26);
    push_padded(&mut row, title.as_str(), 26);
    row.push(' ');
    push_padded(&mut row, priority_label(task.priority), 12);
    row.push(' ');
    push_padded(&mut row, deadline, 16);
    row.push(' ');
    push_padded(&mut row, reminder, 16);
    row.push(' ');
    push_padded(&mut row, status_label(task.status), 6);
    let ghost expected = task_row_text(*task, deadline@, reminder@);
    proof {
        reveal_strlit(" ");
    }
    assert(row@ =~= expected);
    string_from_chars(&row)
}

/// `line` is the row of `task` with its deadline and reminder shown as
/// `format_datetime` shows them.
pub open spec fn is_task_row(task: Task, line: Seq<char>) -> bool {
    exists|d: Seq<char>, m: Seq<char>|
        shown_datetime(task.deadline, d) && shown_datetime(task.reminder, m) && line
            == #[trigger] task_row_text(task, d, m)
}

/// The lines that `todo list` prints: a header, a rule, and one row per
/// task with its deadline and reminder in local time (`-` when unset).
pub fn task_table(tasks: &Vec<Task>) -> (r: Vec<String>)
    ensures
        r.len() == tasks.len() + 2,
        r[0]@ == table_header(),
        r[1]@ == table_rule(),
        forall|i: int| 2 <= i < r.len() ==> is_task_row(tasks[i - 2], #[trigger] r[i]@),
{
    let mut r: Vec<String> = Vec::new();
    r.push("ID  Title                       Priority      Deadline          Reminder          Status".to_owned());
    r.push("--  --------------------------  ------------  ----------------  ----------------  ------".to_owned());
    let mut i: usize = 0;
    while i < tasks.len()
        invariant
            i <= tasks.len(),
            r.len() == i + 2,
            r[0]@ == table_header(),
            r[1]@ == table_rule(),
            forall|k: int| 2 <= k < r.len() ==> is_task_row(tasks[k - 2], #[trigger] r[k]@),
        decreases tasks.len() - i,
    {
        let task = &tasks[i];
        let deadline = format_datetime(task.deadline);
        let reminder = format_datetime(task.reminder);
        let row = task_row(task, deadline.as_str(), reminder.as_str());
        r.push(row);
        assert(is_task_row(tasks[i as int], r[i + 2]@));
        i = i + 1;
    }
    r
}

/// Where a deadline falls relative to today in the agenda.
#[derive(Debug, Clone, Copy, PartialEq, Eq, Structural)]
pub enum AgendaBucket {
    Overdue,
    Today,
    Upcoming,
}

pub open spec fn bucket_of(deadline: CivilDate, today: CivilDate) -> AgendaBucket {
    if date_before(deadline, today) {
        AgendaBucket::Overdue
    } else if deadline == today {
        AgendaBucket::Today
    } else {
        AgendaBucket::Upcoming
    }
}

/// A deadline is overdue exactly when it falls on an earlier day than
/// today, due today exactly on today, and upcoming exactly on a later day:
/// the agenda sorts by the calendar's own order of days.
pub proof fn lemma_buckets_follow_days(deadline: CivilDate, today: CivilDate)
    requires
        valid_date(deadline),
        valid_date(today),
    ensures
        (bucket_of(deadline, today) == AgendaBucket::Overdue) <==> date_day_number(deadline)
            < date_day_number(today),
        (bucket_of(deadline, today) == AgendaBucket::Today) <==> date_day_number(deadline)
            == date_day_number(today),
        (bucket_of(deadline, today) == AgendaBucket::Upcoming) <==> date_day_number(deadline)
            > date_day_number(today),
{
    if date_before(deadline, today) {
        crate::civil::lemma_day_number_increasing(deadline, today);
    } else if deadline == today {
    } else {
        assert(date_before(today, deadline));
        crate::civil::lemma_day_number_increasing(today, deadline);
    }
}

pub fn classify_deadline(deadline: CivilDate, today: CivilDate) -> (r: AgendaBucket)
    ensures
        r == bucket_of(deadline, today),
{
    if is_date_before(deadline, today) {
        AgendaBucket::Overdue
    } else if deadline == today {
        AgendaBucket::Today
    } else {
        AgendaBucket::Upcoming
    }
}

/// A task's title with the local date of its deadline.
pub struct DatedTask {
    pub title: String,
    pub date: CivilDate,
}

pub open spec fn dated_view(d: DatedTask) -> (Seq<char>, CivilDate) {
    (d.title@, d.date)
}

/// The agenda line of one task: `[!]` for an overdue one, `[ ]` otherwise,
/// its title, and `due today` or `due YYYY-MM-DD`.
pub open spec fn agenda_item_text(item: (Seq<char>, CivilDate), today: CivilDate, overdue: bool) -> Seq<char> {
    (if overdue { "[!]"@ } else { "[ ]"@ }) + " "@ + item.0 + " ("@ + (if item.1 == today {
        "due today"@
    } else {
        "due "@ + date_text(item.1)
    }) + ")"@
}

/// The agenda lines of the items that fall in `bucket`, in order.
pub open spec fn bucket_lines(items: Seq<(Seq<char>, CivilDate)>, today: CivilDate, bucket: AgendaBucket) -> Seq<Seq<char>>
    decreases items.len(),
{
    if items.len() == 0 {
        Seq::empty()
    } else {
        let rest = bucket_lines(items.drop_last(), today, bucket);
        if bucket_of(items.last().1, today) == bucket {
            rest.push(agenda_item_text(items.last(), today, bucket == AgendaBucket::Overdue))
        } else {
            rest
        }
    }
}

/// A section of the agenda: its title, a rule as long as the title, the
/// lines (or `(none)`), and an empty line.
pub open spec fn section_text(title: Seq<char>, lines: Seq<Seq<char>>) -> Seq<Seq<char>> {
    seq![title, repeat_char('-', title.len())] + (if lines.len() == 0 {
        seq!["(none)"@]
    } else {
        lines
    }) + seq![Seq::<char>::empty()]
}

/// What `todo today` and `todo week` print for the dated tasks.
pub open spec fn agenda_text(items: Seq<(Seq<char>, CivilDate)>, today: CivilDate) -> Seq<Seq<char>> {
    let overdue = bucket_lines(items, today, AgendaBucket::Overdue);
    let due_today = bucket_lines(items, today, AgendaBucket::Today);
    let upcoming = bucket_lines(items, today, AgendaBucket::Upcoming);
    if overdue.len() == 0 && due_today.len() == 0 && upcoming.len() == 0 {
        seq!["No tasks due."@]
    } else {
        section_text("Overdue"@, overdue) + section_text("Today"@, due_today) + section_text(
            "Upcoming"@,
            upcoming,
        )
    }
}

/// Each dated task appears in exactly one section of the agenda: the three
/// sections together have one line per task.
pub proof fn lemma_agenda_partition(items: Seq<(Seq<char>, CivilDate)>, today: CivilDate)
    ensures
        bucket_lines(items, today, AgendaBucket::Overdue).len() + bucket_lines(
            items,
            today,
            AgendaBucket::Today,
        ).len() + bucket_lines(items, today, AgendaBucket::Upcoming).len() == items.len(),
        (agenda_text(items, today) == seq!["No tasks due."@]) <==> items.len() == 0,
    decreases items.len(),
{
    if items.len() > 0 {
        lemma_agenda_partition(items.drop_last(), today);
        assert(agenda_text(items, today).len() > 1);
    } else {
        assert(agenda_text(items, today) == seq!["No tasks due."@]);
    }
}

fn agenda_item(item: &DatedTask, today: CivilDate, overdue: bool) -> (r: String)
    ensures
        r@ == agenda_item_text(dated_view(*item), today, overdue),
{
    let mut s = if overdue { "[!]".to_owned() } else { "[ ]".to_owned() };
    s.append(" ");
    s.append(item.title.as_str());
    s.append(" (");
    if item.date == today {
        s.append("due today");
    } else {
        s.append("due ");
        let d = format_date(item.date);
        s.append(d.as_str());
    }
    s.append(")");
    s
}

/// The texts of a list of strings.
pub open spec fn lines_view(v: Seq<String>) -> Seq<Seq<char>> {
    v.map_values(|s: String| s@)
}

fn push_line(lines: &mut Vec<String>, line: String)
    ensures
        lines_view(final(lines)@) == lines_view(old(lines)@).push(line@),
{
    lines.push(line);
    assert(lines_view(lines@) =~= lines_view(old(lines)@).push(line@));
}

fn append_lines(lines: &mut Vec<String>, more: Vec<String>)
    ensures
        lines_view(final(lines)@) == lines_view(old(lines)@) + lines_view(more@),
{
    let mut more = more;
    let mut rest: Vec<String> = Vec::new();
    // move the lines over in order
    let n = more.len();
    let ghost orig = more@;
    let mut i: usize = 0;
    while i < n
        invariant
            n == orig.len(),
            i <= n,
            more@ == orig,
            lines_view(lines@) == lines_view(old(lines)@) + lines_view(orig.take(i as int)),
        decreases n - i,
    {
        let line = more[i].clone();
        push_line(lines, line);
        i = i + 1;
        assert(lines_view(orig.take(i as int)) =~= lines_view(orig.take(i - 1)).push(orig[i - 1]@));
    }
    assert(orig.take(n as int) =~= orig);
}

/// The agenda lines of the tasks that fall in one bucket.
fn bucket_items(items: &Vec<DatedTask>, today: CivilDate, bucket: AgendaBucket) -> (r: Vec<String>)
    ensures
        lines_view(r@) == bucket_lines(items@.map_values(|d: DatedTask| dated_view(d)), today, bucket),
{
    let ghost all = items@.map_values(|d: DatedTask| dated_view(d));
    let mut r: Vec<String> = Vec::new();
    let mut i: usize = 0;
    while i < items.len()
        invariant
            i <= items.len(),
            all == items@.map_values(|d: DatedTask| dated_view(d)),
            lines_view(r@) == bucket_lines(all.take(i as int), today, bucket),
        decreases items.len() - i,
    {
        let ghost prefix = all.take(i + 1);
        assert(prefix.drop_last() =~= all.take(i as int));
        assert(prefix.last() == dated_view(items@[i as int]));
        if classify_deadline(items[i].date, today) == bucket {
            let line = agenda_item(&items[i], today, bucket == AgendaBucket::Overdue);
            push_line(&mut r, line);
        }
        i = i + 1;
    }
    assert(all.take(items.len() as int) =~= all);
    r
}

fn section(title: &str, lines: Vec<String>) -> (r: Vec<String>)
    ensures
        lines_view(r@) == section_text(title@, lines_view(lines@)),
{
    let mut r: Vec<String> = Vec::new();
    push_line(&mut r, title.to_owned());
    let n = chars_of(title).len();
    let mut rule: Vec<char> = Vec::new();
    let mut i: usize = 0;
    while i < n
        invariant
            i <= n,
            rule@ == repeat_char('-', i as nat),
        decreases n - i,
    {
        rule.push('-');
        i = i + 1;
        assert(rule@ =~= repeat_char('-', i as nat));
    }
    push_line(&mut r, string_from_chars(&rule));
    if lines.len() == 0 {
        push_line(&mut r, "(none)".to_owned());
    } else {
        append_lines(&mut r, lines);
    }
    push_line(&mut r, String::new());
    assert(lines_view(r@) =~= section_text(title@, lines_view(lines@)));
    r
}

/// The agenda, grouped into overdue tasks, tasks due today and upcoming
/// tasks, each group in the given order.
pub fn agenda_lines(items: &Vec<DatedTask>, today: CivilDate) -> (r: Vec<String>)
    ensures
        lines_view(r@) == agenda_text(items@.map_values(|d: DatedTask| dated_view(d)), today),
{
    let overdue = bucket_items(items, today, AgendaBucket::Overdue);
    let due_today = bucket_items(items, today, AgendaBucket::Today);
    let upcoming = bucket_items(items, today, AgendaBucket::Upcoming);
    let mut r: Vec<String> = Vec::new();
    if overdue.len() == 0 && due_today.len() == 0 && upcoming.len() == 0 {
        push_line(&mut r, "No tasks due.".to_owned());
        assert(lines_view(r@) =~= seq!["No tasks due."@]);
        return r;
    }
    append_lines(&mut r, section("Overdue", overdue));
    append_lines(&mut r, section("Today", due_today));
    append_lines(&mut r, section("Upcoming", upcoming));
    assert(lines_view(r@) =~= agenda_text(items@.map_values(|d: DatedTask| dated_view(d)), today));
    r
}

/// `d` is the date of a local time that lies within a day of timestamp
/// `ts` read as UTC: what the local date of `ts` is in some time zone.
pub open spec fn is_local_date_of(d: CivilDate, ts: int) -> bool {
    exists|dt: CivilDateTime|
        dt.date == d && valid_time(dt.hour as int, dt.minute as int, dt.second as int) && within_a_day(
            #[trigger] unix_seconds(dt),
            ts,
        )
}

/// The local date of a deadline timestamp: a real date within a day of the
/// timestamp, found for every timestamp well inside chrono's range. Which
/// date it is depends on the time zone. A local date past chrono's dates,
/// near the ends of its range, gives none.
pub fn deadline_date(deadline_ts: i64) -> (r: Option<CivilDate>)
    ensures
        r matches Some(d) ==> valid_date(d),
        convertible_instant(deadline_ts as int) ==> (r matches Some(d) && is_local_date_of(
            d,
            deadline_ts as int,
        )),
{
    match local_date_time_of(deadline_ts) {
        Some(dt) => {
            if is_valid_date(dt.date.year, dt.date.month, dt.date.day) {
                Some(dt.date)
            } else {
                None
            }
        },
        None => None,
    }
}

/// The title and date of each task with a known deadline date, in order;
/// `dates[i]` is the local date of task `i`'s deadline, if it has one.
pub open spec fn dated_items(tasks: Seq<Task>, dates: Seq<Option<CivilDate>>) -> Seq<(Seq<char>, CivilDate)>
    decreases tasks.len(),
{
    if tasks.len() == 0 || dates.len() == 0 {
        Seq::empty()
    } else {
        let rest = dated_items(tasks.drop_last(), dates.drop_last());
        match dates.last() {
            Some(d) => rest.push((tasks.last().title@, d)),
            None => rest,
        }
    }
}

/// A deadline well inside chrono's range has a local date within a day of
/// it.
pub open spec fn has_local_date(deadline: Option<i64>, date: Option<CivilDate>) -> bool {
    match deadline {
        Some(ts) => convertible_instant(ts as int) ==> (date matches Some(d) && is_local_date_of(
            d,
            ts as int,
        )),
        None => true,
    }
}

/// The tasks with a deadline whose local date is known, with that date, in
/// order. Which date a deadline falls on depends on the machine's time
/// zone; the contract states that each date is a real one, that a task
/// without a deadline has none, and that a deadline well inside chrono's
/// range has a date within a day of it.
pub fn dated_tasks(tasks: &Vec<Task>) -> (r: Vec<DatedTask>)
    ensures
        exists|dates: Seq<Option<CivilDate>>|
            {
                &&& dates.len() == tasks.len()
                &&& forall|k: int| 0 <= k < tasks.len() ==> (tasks[k].deadline is None ==> #[trigger] dates[k] is None)
                &&& forall|k: int| 0 <= k < tasks.len() ==> (#[trigger] dates[k] matches Some(d) ==> valid_date(d))
                &&& forall|k: int| 0 <= k < tasks.len() ==> has_local_date(tasks[k].deadline, #[trigger] dates[k])
                &&& r@.map_values(|d: DatedTask| dated_view(d)) == dated_items(tasks@, dates)
            },
{
    let mut r: Vec<DatedTask> = Vec::new();
    let ghost mut dates: Seq<Option<CivilDate>> = Seq::empty();
    let mut i: usize = 0;
    while i < tasks.len()
        invariant
            i <= tasks.len(),
            dates.len() == i,
            forall|k: int| 0 <= k < i ==> (tasks[k].deadline is None ==> #[trigger] dates[k] is None),
            forall|k: int| 0 <= k < i ==> (#[trigger] dates[k] matches Some(d) ==> valid_date(d)),
            forall|k: int| 0 <= k < i ==> has_local_date(tasks[k].deadline, #[trigger] dates[k]),
            r@.map_values(|d: DatedTask| dated_view(d)) == dated_items(tasks@.take(i as int), dates),
        decreases tasks.len() - i,
    {
        let ghost before = r@.map_values(|d: DatedTask| dated_view(d));
        let found: Option<CivilDate> = match tasks[i].deadline {
            Some(ts) => deadline_date(ts),
            None => None,
        };
        match found {
            Some(date) => {
                r.push(DatedTask { title: tasks[i].title.clone(), date: date });
            },
            None => {},
        }
        proof {
            let old_dates = dates;
            dates = dates.push(found);
            assert(tasks@.take(i + 1).drop_last() =~= tasks@.take(i as int));
            assert(dates.drop_last() =~= old_dates);
            assert(tasks@.take(i + 1).last() == tasks@[i as int]);
            assert(r@.map_values(|d: DatedTask| dated_view(d)) =~= dated_items(tasks@.take(i + 1), dates));
        }
        i = i + 1;
    }
    assert(tasks@.take(tasks.len() as int) =~= tasks@);
    r
}

/// The last second of a day given how the local clock resolves the next
/// midnight: one second before it.
pub fn day_end_from(next_midnight: LocalTime) -> (r: Result<i64, String>)
    requires
        match next_midnight {
            LocalTime::Gap => true,
            LocalTime::Single(t) => crate::civil::instant_in_range(t),
            LocalTime::Ambiguous(a, b) => crate::civil::instant_in_range(a),
        },
    ensures
        match earliest_of(next_midnight) {
            Some(t) => r == Ok::<i64, String>((t - 1) as i64),
            None => r matches Err(e) && e@ == "Invalid or ambiguous local time"@,
        },
{
    match earliest_instant(next_midnight) {
        Some(t) => Ok(t - 1),
        None => Err("Invalid or ambiguous local time".to_owned()),
    }
}

/// The last second of `date` in local time: one second before the local
/// midnight that starts the next day. Where that midnight lies depends on
/// the machine's time zone, so the contract states what holds of any
/// result: the next second is an instant chrono can hold within a day of
/// that midnight read as UTC, and a midnight the clock skips gives the
/// error.
pub fn end_of_day_ts(date: CivilDate) -> (r: Result<i64, String>)
    requires
        valid_date(date),
        date_day_number(date) + 1 <= last_day_number(),
    ensures
        r matches Ok(t) ==> crate::civil::instant_in_range((t + 1) as i64) && within_a_day(
            t + 1,
            day_start_seconds(date_day_number(date) + 1),
        ),
        r matches Err(e) ==> e@ == "Invalid or ambiguous local time"@,
{
    proof {
        crate::civil::lemma_valid_day_range_pub(date);
    }
    let next_day = add_days(date, 1);
    let midnight = CivilDateTime { date: next_day, hour: 0, minute: 0, second: 0 };
    day_end_from(local_instants(midnight))
}

/// The last second of the agenda window: the end of the day `window_days`
/// after `today`.
pub fn agenda_end_ts(today: CivilDate, window_days: i64) -> (r: Result<i64, String>)
    requires
        valid_date(today),
        0 <= window_days,
        date_day_number(today) + window_days + 1 <= last_day_number(),
    ensures
        r matches Ok(t) ==> crate::civil::instant_in_range((t + 1) as i64) && within_a_day(
            t + 1,
            day_start_seconds(date_day_number(today) + window_days + 1),
        ),
        r matches Err(e) ==> e@ == "Invalid or ambiguous local time"@,
{
    proof {
        crate::civil::lemma_valid_day_range_pub(today);
    }
    let end_date = add_days(today, window_days);
    end_of_day_ts(end_date)
}

} // verus!

verus! {

pub open spec fn no_task_message(id: i64) -> Seq<char> {
    "No task with id "@ + decimal_int(id as int)
}

pub open spec fn no_project_message(id: i64) -> Seq<char> {
    "No project with id "@ + decimal_int(id as int)
}

pub open spec fn unknown_project_message(name: Seq<char>) -> Seq<char> {
    "No project named '"@ + name + "' (create it first)"@
}

fn text_with_number(prefix: &str, n: i64) -> (r: String)
    ensures
        r@ == prefix@ + decimal_int(n as int),
{
    let mut s = prefix.to_owned();
    let digits = i64_digits(n);
    append_chars(&mut s, &digits);
    s
}

/// A command that changes a task by id fails when no row changed.
pub fn check_task_changed(changed: usize, id: i64) -> (r: Result<(), String>)
    ensures
        changed != 0 ==> r is Ok,
        changed == 0 ==> (r matches Err(e) && e@ == no_task_message(id)),
{
    if changed == 0 {
        Err(text_with_number("No task with id ", id))
    } else {
        Ok(())
    }
}

/// A command that renames a project by id fails when no row changed.
pub fn check_project_changed(changed: usize, id: i64) -> (r: Result<(), String>)
    ensures
        changed != 0 ==> r is Ok,
        changed == 0 ==> (r matches Err(e) && e@ == no_project_message(id)),
{
    if changed == 0 {
        Err(text_with_number("No project with id ", id))
    } else {
        Ok(())
    }
}

/// The id of a project named on the command line, given what the lookup
/// by name found.
pub fn project_by_name(name: &str, found: Option<i64>) -> (r: Result<i64, String>)
    ensures
        found matches Some(id) ==> r == Ok::<i64, String>(id),
        found is None ==> (r matches Err(e) && e@ == unknown_project_message(name@)),
{
    match found {
        Some(id) => Ok(id),
        None => {
            let mut m = "No project named '".to_owned();
            m.append(name);
            m.append("' (create it first)");
            Err(m)
        },
    }
}

pub open spec fn opt_view(o: Option<String>) -> Option<Seq<char>> {
    match o {
        Some(s) => Some(s@),
        None => None,
    }
}

/// The recurrence that a `--repeat` argument gives: none for a blank one,
/// else the trimmed, lowercased text.
pub open spec fn recurrence_of(repeat: Option<Seq<char>>) -> Option<Seq<char>> {
    match repeat {
        None => None,
        Some(v) => if trim_seq(v).len() == 0 { None } else { Some(lowered(trim_seq(v))) },
    }
}

/// Whether a `--repeat` argument is refused.
pub open spec fn recurrence_refused(repeat: Option<Seq<char>>) -> bool {
    match repeat {
        None => false,
        Some(v) => trim_seq(v).len() != 0 && !is_recurrence_name(lowered(trim_seq(v))),
    }
}

/// `t` holds the given fields, with the deadline and reminder read.
pub open spec fn new_task_holds(
    t: NewTask,
    title: Seq<char>,
    description: Option<Seq<char>>,
    project_id: Option<i64>,
    priority: int,
    deadline: Option<i64>,
    reminder: Option<i64>,
    repeat: Option<Seq<char>>,
) -> bool {
    &&& t.title@ == title
    &&& opt_view(t.description) == description
    &&& t.project_id == project_id
    &&& t.priority == clamp_priority(priority)
    &&& t.deadline == deadline
    &&& t.reminder == reminder
    &&& opt_view(t.recurrence) == recurrence_of(repeat)
}

/// What `add` does with its arguments, checked in the order deadline,
/// reminder, priority, recurrence, the first that fails giving the error.
/// `dv` and `rv` are what reading the deadline and the reminder gave.
pub open spec fn new_task_result(
    title: Seq<char>,
    description: Option<Seq<char>>,
    project_id: Option<i64>,
    priority: Seq<char>,
    repeat: Option<Seq<char>>,
    dv: Result<Option<i64>, Seq<char>>,
    rv: Result<Option<i64>, Seq<char>>,
    r: Result<NewTask, String>,
) -> bool {
    match dv {
        Err(e) => r matches Err(m) && m@ == e,
        Ok(d) => match rv {
            Err(e) => r matches Err(m) && m@ == e,
            Ok(m) => match priority_of_name(priority_name(priority)) {
                None => r matches Err(x) && x@ == invalid_priority_message(priority),
                Some(p) => if recurrence_refused(repeat) {
                    r matches Err(x) && x@ == invalid_recurrence_message(trim_seq(repeat->0))
                } else {
                    r matches Ok(t) && new_task_holds(t, title, description, project_id, p, d, m, repeat)
                },
            },
        },
    }
}

/// Checks and converts the arguments of `add`: deadline, reminder,
/// priority, and recurrence, in that order; the first that fails gives the
/// error. What the local clock makes of a date is left to the time zone: a
/// date is either refused as skipped or repeated, or becomes an instant
/// within a day of it read as UTC.
pub fn prepare_new_task(
    title: String,
    description: Option<String>,
    project_id: Option<i64>,
    priority: &str,
    deadline: Option<String>,
    remind: Option<String>,
    repeat: Option<String>,
) -> (r: Result<NewTask, String>)
    ensures
        exists|dv: Result<Option<i64>, Seq<char>>, rv: Result<Option<i64>, Seq<char>>|
            #![trigger datetime_result(opt_view(deadline), dv), datetime_result(opt_view(remind), rv)]
            {
                &&& datetime_result(opt_view(deadline), dv)
                &&& datetime_result(opt_view(remind), rv)
                &&& new_task_result(
                    title@,
                    opt_view(description),
                    project_id,
                    priority@,
                    opt_view(repeat),
                    dv,
                    rv,
                    r,
                )
            },
{
    let ghost dview = opt_view(deadline);
    let ghost rview = opt_view(remind);
    let ghost repeat_view = opt_view(repeat);
    let ghost title_view = title@;
    let ghost description_view = opt_view(description);
    // what the reminder would give, where it is never read
    let ghost unread: Result<Option<i64>, Seq<char>> = match rview {
        None => Ok(None),
        Some(s) => match parsed_date_time(s) {
            None => Err(invalid_datetime_message(s)),
            Some(_) => Err(ambiguous_time_message(s)),
        },
    };
    let deadline_read = parse_optional_datetime(deadline);
    let ghost dres = result_view(deadline_read);
    let deadline_ts = match deadline_read {
        Ok(v) => v,
        Err(e) => {
            assert(datetime_result(rview, unread));
            return Err(e);
        },
    };
    let remind_read = parse_optional_datetime(remind);
    let ghost rres = result_view(remind_read);
    let reminder_ts = match remind_read {
        Ok(v) => v,
        Err(e) => {
            assert(datetime_result(dview, dres));
            return Err(e);
        },
    };
    assert(datetime_result(dview, dres) && datetime_result(rview, rres));
    let priority_value = match parse_priority(priority) {
        Ok(p) => p,
        Err(e) => {
            return Err(e);
        },
    };
    let recurrence = match repeat {
        Some(v) => match parse_recurrence(Some(v.as_str())) {
            Ok(x) => x,
            Err(e) => {
                return Err(e);
            },
        },
        None => None,
    };
    let t = NewTask {
        title: title,
        description: description,
        project_id: project_id,
        priority: priority_value,
        deadline: deadline_ts,
        reminder: reminder_ts,
        recurrence: recurrence,
    };
    assert(new_task_holds(
        t,
        title_view,
        description_view,
        project_id,
        priority_of_name(priority_name(priority@))->0,
        deadline_ts,
        reminder_ts,
        repeat_view,
    ));
    Ok(t)
}

} // verus!

verus! {

/// A recurring task's next deadline or reminder: one day or week later for
/// `daily` and `weekly`.
pub open spec fn next_time_fixed(ts: Option<i64>, recurrence: Seq<char>) -> Option<i64> {
    match ts {
        None => None,
        Some(t) => if recurrence == "daily"@ {
            Some((t + 86400) as i64)
        } else if recurrence == "weekly"@ {
            Some((t + 604800) as i64)
        } else {
            None
        },
    }
}

/// The next deadline or reminder of a task repeating by `recurrence`:
/// exactly a day or a week on for `daily` and `weekly`; for `monthly` and
/// `yearly`, none or what moving its local date-time by one or twelve
/// months can give (the time zone decides).
pub open spec fn next_time(ts: Option<i64>, recurrence: Seq<char>, next: Option<i64>) -> bool {
    match ts {
        None => next is None,
        Some(t) => if recurrence == "daily"@ || recurrence == "weekly"@ {
            next == next_time_fixed(ts, recurrence)
        } else if recurrence == "monthly"@ {
            next matches Some(x) ==> moved_by_months(t as int, 1, x)
        } else if recurrence == "yearly"@ {
            next matches Some(x) ==> moved_by_months(t as int, 12, x)
        } else {
            next is None
        },
    }
}

/// Whether a recurrence moves by a fixed number of seconds.
pub open spec fn fixed_step(recurrence: Seq<char>) -> bool {
    recurrence == "daily"@ || recurrence == "weekly"@
}

fn shift_optional(ts: Option<i64>, recurrence: &str) -> (r: Option<i64>)
    requires
        fixed_step(recurrence@) ==> (ts matches Some(t) ==> t <= i64::MAX - 604800),
    ensures
        next_time(ts, recurrence@, r),
{
    proof {
        reveal_strlit("daily");
        reveal_strlit("weekly");
        reveal_strlit("monthly");
        reveal_strlit("yearly");
        assert("daily"@.len() != "weekly"@.len());
        assert("monthly"@[0] != "yearly"@[0]);
    }
    match ts {
        Some(t) => crate::task::next_recurrence_timestamp(t, recurrence),
        None => None,
    }
}

/// The task that a recurring task leaves when it is done: the same title,
/// description, project, priority and recurrence, with its deadline and
/// reminder moved to their next occurrence. Tasks without a known
/// recurrence leave none.
pub fn next_occurrence(task: &Task) -> (r: Option<NewTask>)
    requires
        task.recurrence matches Some(rec) && fixed_step(rec@) ==> (task.deadline matches Some(d)
            ==> d <= i64::MAX - 604800),
        task.recurrence matches Some(rec) && fixed_step(rec@) ==> (task.reminder matches Some(m)
            ==> m <= i64::MAX - 604800),
    ensures
        match task.recurrence {
            None => r is None,
            Some(rec) => if is_recurrence_name(rec@) {
                r matches Some(n) && {
                    &&& n.title@ == task.title@
                    &&& opt_view(n.description) == opt_view(task.description)
                    &&& n.project_id == task.project_id
                    &&& n.priority == task.priority
                    &&& opt_view(n.recurrence) == Some(rec@)
                    &&& next_time(task.deadline, rec@, n.deadline)
                    &&& next_time(task.reminder, rec@, n.reminder)
                }
            } else {
                r is None
            },
        },
{
    match &task.recurrence {
        None => None,
        Some(rec) => {
            if !is_one_of(rec.as_str(), "daily", "weekly", "monthly", "yearly") {
                return None;
            }
            let description = match &task.description {
                Some(d) => Some(d.clone()),
                None => None,
            };
            Some(
                NewTask {
                    title: task.title.clone(),
                    description: description,
                    project_id: task.project_id,
                    priority: task.priority,
                    deadline: shift_optional(task.deadline, rec.as_str()),
                    reminder: shift_optional(task.reminder, rec.as_str()),
                    recurrence: Some(rec.clone()),
                },
            )
        },
    }
}

} // verus!
