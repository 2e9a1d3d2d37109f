use todo::civil::{CivilDate, LocalTime};
use todo::cli::{
    agenda_end_ts, agenda_lines, check_project_changed, deadline_date, end_of_day_ts, check_task_changed, classify_deadline, dated_tasks, day_end_from,
    next_occurrence, parse_optional_datetime, parse_priority, parse_recurrence, prepare_new_task,
    project_by_name, task_row, task_table, truncate, AgendaBucket, DatedTask,
};
use todo::project::{project_list_lines, Project};
use todo::task::{format_datetime, parse_datetime_local, Status, Task};

fn task(id: i64, title: &str) -> Task {
    Task {
        id,
        title: title.to_string(),
        description: None,
        project_id: None,
        status: Status::Todo,
        priority: 1,
        deadline: None,
        reminder: None,
        recurrence: None,
    }
}

fn date(year: i32, month: u32, day: u32) -> CivilDate {
    CivilDate { year, month, day }
}

#[test]
fn truncation() {
    assert_eq!(truncate("hello", 10), "hello");
    assert_eq!(truncate("hello", 5), "hello");
    assert_eq!(truncate("hello world!", 8), "hello...");
    assert_eq!(truncate("hello", 3), "...");
    assert_eq!(truncate("hello", 2), "..");
    assert_eq!(truncate("hello", 0), "");
    // byte length decides whether to cut; characters are kept whole
    assert_eq!(truncate("ééé", 5), "éé...");
}

#[test]
fn priority_names() {
    assert_eq!(parse_priority("very high"), Ok(4));
    assert_eq!(parse_priority(" Very-High "), Ok(4));
    assert_eq!(parse_priority("VH"), Ok(4));
    assert_eq!(parse_priority("medium_high"), Ok(3));
    assert_eq!(parse_priority("mh"), Ok(3));
    assert_eq!(parse_priority("high"), Ok(2));
    assert_eq!(parse_priority("n"), Ok(1));
    assert_eq!(parse_priority("normal"), Ok(1));
    assert_eq!(parse_priority("low"), Ok(0));
    assert_eq!(parse_priority("0"), Ok(0));
    assert_eq!(
        parse_priority("urgent"),
        Err("Invalid priority: urgent (use very high, medium high, high, normal, low)".to_string())
    );
}

#[test]
fn recurrence_names() {
    assert_eq!(parse_recurrence(None), Ok(None));
    assert_eq!(parse_recurrence(Some("   ")), Ok(None));
    assert_eq!(parse_recurrence(Some(" Weekly ")), Ok(Some("weekly".to_string())));
    assert_eq!(parse_recurrence(Some("monthly")), Ok(Some("monthly".to_string())));
    assert_eq!(
        parse_recurrence(Some(" Hourly")),
        Err("Invalid recurrence: Hourly (use daily, weekly, monthly, yearly)".to_string())
    );
}

#[test]
fn optional_datetimes() {
    assert_eq!(parse_optional_datetime(None), Ok(None));
    let ts = parse_datetime_local("2026-03-15 16:00").unwrap();
    assert_eq!(parse_optional_datetime(Some("2026-03-15 16:00".to_string())), Ok(Some(ts)));
    assert!(parse_optional_datetime(Some("soon".to_string())).is_err());
}

#[test]
fn table_rows() {
    let mut t = task(3, "Write paper");
    t.priority = 4;
    t.status = Status::InProgress;
    let row = task_row(&t, "2026-03-15 18:00", "-");
    assert_eq!(
        row,
        "3   Write paper                Very High    2026-03-15 18:00 -                In Progress"
    );
    let table = task_table(&vec![task(1, "A")]);
    assert_eq!(table.len(), 3);
    assert_eq!(table[0], "ID  Title                       Priority      Deadline          Reminder          Status");
    assert_eq!(table[1], "--  --------------------------  ------------  ----------------  ----------------  ------");
    assert_eq!(table[2], "1   A                          Normal       -                -                Todo  ");
}

#[test]
fn long_titles_are_cut_in_the_table() {
    let row = task_row(&task(12, "abcdefghijklmnopqrstuvwxyz0123"), "-", "-");
    assert!(row.starts_with("12  abcdefghijklmnopqrstuvw... Normal"));
}

#[test]
fn deadline_buckets() {
    let today = date(2026, 3, 15);
    assert_eq!(classify_deadline(date(2026, 3, 14), today), AgendaBucket::Overdue);
    assert_eq!(classify_deadline(date(2025, 12, 31), today), AgendaBucket::Overdue);
    assert_eq!(classify_deadline(date(2026, 3, 15), today), AgendaBucket::Today);
    assert_eq!(classify_deadline(date(2026, 4, 1), today), AgendaBucket::Upcoming);
}

#[test]
fn agenda_sections() {
    let today = date(2026, 3, 15);
    let items = vec![
        DatedTask { title: "Late".to_string(), date: date(2026, 3, 10) },
        DatedTask { title: "Now".to_string(), date: date(2026, 3, 15) },
        DatedTask { title: "Soon".to_string(), date: date(2026, 3, 17) },
        DatedTask { title: "Later".to_string(), date: date(2026, 3, 18) },
    ];
    let lines = agenda_lines(&items, today);
    let expected = vec![
        "Overdue",
        "-------",
        "[!] Late (due 2026-03-10)",
        "",
        "Today",
        "-----",
        "[ ] Now (due today)",
        "",
        "Upcoming",
        "--------",
        "[ ] Soon (due 2026-03-17)",
        "[ ] Later (due 2026-03-18)",
        "",
    ];
    assert_eq!(lines, expected);
}

#[test]
fn empty_agenda_sections_say_none() {
    let today = date(2026, 3, 15);
    let items = vec![DatedTask { title: "Now".to_string(), date: today }];
    let lines = agenda_lines(&items, today);
    assert_eq!(lines[0..4], ["Overdue", "-------", "(none)", ""]);
    assert_eq!(lines.len(), 12);
    assert_eq!(agenda_lines(&vec![], today), vec!["No tasks due.".to_string()]);
}

#[test]
fn dated_tasks_keep_tasks_with_deadlines() {
    let mut a = task(1, "A");
    a.deadline = Some(parse_datetime_local("2026-03-15 18:00").unwrap());
    let b = task(2, "B");
    let items = dated_tasks(&vec![a, b]);
    assert_eq!(items.len(), 1);
    assert_eq!(items[0].title, "A");
    assert_eq!(items[0].date, date(2026, 3, 15));
}

#[test]
fn day_ends() {
    assert_eq!(day_end_from(LocalTime::Single(86_400)), Ok(86_399));
    assert_eq!(day_end_from(LocalTime::Ambiguous(100, 3_700)), Ok(99));
    assert_eq!(day_end_from(LocalTime::Gap), Err("Invalid or ambiguous local time".to_string()));
}

#[test]
fn change_counts() {
    assert_eq!(check_task_changed(1, 5), Ok(()));
    assert_eq!(check_task_changed(0, 5), Err("No task with id 5".to_string()));
    assert_eq!(check_project_changed(0, -2), Err("No project with id -2".to_string()));
    assert_eq!(project_by_name("Work", Some(4)), Ok(4));
    assert_eq!(project_by_name("Home", None), Err("No project named 'Home' (create it first)".to_string()));
}

#[test]
fn new_tasks_are_checked_in_order() {
    let ok = prepare_new_task(
        "Write paper".to_string(),
        Some("draft".to_string()),
        Some(2),
        "very high",
        Some("2026-03-15 18:00".to_string()),
        Some("2026-03-15 16:00".to_string()),
        Some(" Weekly".to_string()),
    )
    .unwrap();
    assert_eq!(ok.title, "Write paper");
    assert_eq!(ok.description, Some("draft".to_string()));
    assert_eq!(ok.project_id, Some(2));
    assert_eq!(ok.priority, 4);
    assert_eq!(format_datetime(ok.deadline), "2026-03-15 18:00");
    assert_eq!(format_datetime(ok.reminder), "2026-03-15 16:00");
    assert_eq!(ok.recurrence, Some("weekly".to_string()));

    let bad_deadline = prepare_new_task("t".to_string(), None, None, "bogus", Some("x".to_string()), None, None);
    assert_eq!(bad_deadline.err(), Some("Invalid datetime: x (expected YYYY-MM-DD HH:MM)".to_string()));
    let bad_priority = prepare_new_task("t".to_string(), None, None, "bogus", None, None, Some("x".to_string()));
    assert_eq!(
        bad_priority.err(),
        Some("Invalid priority: bogus (use very high, medium high, high, normal, low)".to_string())
    );
    let bad_repeat = prepare_new_task("t".to_string(), None, None, "low", None, None, Some("x".to_string()));
    assert!(bad_repeat.err().unwrap().starts_with("Invalid recurrence: x"));
    let blank_repeat = prepare_new_task("t".to_string(), None, None, "low", None, None, Some(" ".to_string()));
    assert_eq!(blank_repeat.unwrap().recurrence, None);
}

#[test]
fn recurring_tasks_leave_a_next_one() {
    let mut t = task(9, "Stand-up");
    t.recurrence = Some("daily".to_string());
    t.deadline = Some(1_000);
    t.priority = 3;
    t.project_id = Some(7);
    let next = next_occurrence(&t).unwrap();
    assert_eq!(next.title, "Stand-up");
    assert_eq!(next.deadline, Some(87_400));
    assert_eq!(next.reminder, None);
    assert_eq!(next.priority, 3);
    assert_eq!(next.project_id, Some(7));
    assert_eq!(next.recurrence, Some("daily".to_string()));
    t.recurrence = None;
    assert!(next_occurrence(&t).is_none());
    t.recurrence = Some("sometimes".to_string());
    assert!(next_occurrence(&t).is_none());
}

#[test]
fn project_listing() {
    let lines = project_list_lines(&vec![
        Project { id: 1, name: "Work".to_string() },
        Project { id: 12, name: "Home".to_string() },
    ]);
    assert_eq!(lines, vec!["ID  Name", "--  ----", "1   Work", "12  Home"]);
}

#[test]
fn local_dates_and_day_ends_stay_near_utc() {
    let d = deadline_date(0).unwrap();
    assert!(d == date(1970, 1, 1) || d == date(1969, 12, 31));
    let end = end_of_day_ts(date(2026, 3, 15)).unwrap();
    let utc_midnight = 1_773_619_200; // 2026-03-16 00:00 UTC
    assert!((end + 1 - utc_midnight).abs() < 86_400);
    let window = agenda_end_ts(date(2026, 3, 12), 3).unwrap();
    assert_eq!(window, end);
}
