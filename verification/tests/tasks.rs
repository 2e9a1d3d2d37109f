use todo::civil::{CivilDate, CivilDateTime, LocalTime};
use todo::task::{
    date_time_label, earliest_instant, format_datetime, last_day_of_month, next_recurrence_timestamp,
    normalize_priority, parse_datetime_local, priority_label, shift_months, single_instant_or_error,
    status_column, status_from_column, status_from_db, status_label, status_to_db, Status,
};

fn at(year: i32, month: u32, day: u32, hour: u32, minute: u32, second: u32) -> CivilDateTime {
    CivilDateTime { date: CivilDate { year, month, day }, hour, minute, second }
}

#[test]
fn parse_datetime_valid() {
    let ts = parse_datetime_local("2026-03-15 18:00").expect("parse ok");
    assert!(ts > 0);
}

#[test]
fn parse_datetime_invalid() {
    let err = parse_datetime_local("2026-03-15").unwrap_err();
    assert!(err.contains("YYYY-MM-DD HH:MM"));
}

#[test]
fn parse_datetime_error_names_the_input() {
    let err = parse_datetime_local("tomorrow").unwrap_err();
    assert_eq!(err, "Invalid datetime: tomorrow (expected YYYY-MM-DD HH:MM)");
    assert!(parse_datetime_local("2026-02-30 10:00").is_err());
    assert!(parse_datetime_local("2026-03-15 25:00").is_err());
}

#[test]
fn parsed_time_formats_back_to_the_same_text() {
    let ts = parse_datetime_local("2026-03-15 18:00").unwrap();
    assert_eq!(format_datetime(Some(ts)), "2026-03-15 18:00");
    let later = parse_datetime_local("2026-03-15 18:01").unwrap();
    assert_eq!(later - ts, 60);
}

#[test]
fn missing_times_show_a_dash() {
    assert_eq!(format_datetime(None), "-");
    assert_eq!(date_time_label(None), "-");
    assert_eq!(date_time_label(Some(at(2026, 3, 5, 7, 9, 59))), "2026-03-05 07:09");
}

#[test]
fn status_texts() {
    assert_eq!(status_label(Status::Todo), "Todo");
    assert_eq!(status_label(Status::InProgress), "In Progress");
    assert_eq!(status_label(Status::Done), "Done");
    assert_eq!(status_to_db(Status::InProgress), "IN_PROGRESS");
    assert_eq!(status_from_db(Some("DONE".to_string())), Status::Done);
    assert_eq!(status_from_db(Some("IN_PROGRESS".to_string())), Status::InProgress);
    assert_eq!(status_from_db(Some("whatever".to_string())), Status::Todo);
    assert_eq!(status_from_db(None), Status::Todo);
}

#[test]
fn status_round_trips() {
    for status in [Status::Todo, Status::InProgress, Status::Done] {
        assert_eq!(status_from_db(Some(status_to_db(status).to_string())), status);
        assert_eq!(status_from_column(status_column(status)), status);
    }
    assert_eq!(status_column(Status::Done), 2);
    assert_eq!(status_from_column(7), Status::Todo);
}

#[test]
fn priorities() {
    assert_eq!(priority_label(4), "Very High");
    assert_eq!(priority_label(3), "Medium High");
    assert_eq!(priority_label(2), "High");
    assert_eq!(priority_label(1), "Normal");
    assert_eq!(priority_label(0), "Low");
    assert_eq!(priority_label(9), "Normal");
    assert_eq!(normalize_priority(9), 4);
    assert_eq!(normalize_priority(-2), 0);
    assert_eq!(normalize_priority(3), 3);
    assert_eq!(normalize_priority(normalize_priority(17)), normalize_priority(17));
}

#[test]
fn month_lengths() {
    assert_eq!(last_day_of_month(2024, 2), Some(29));
    assert_eq!(last_day_of_month(2023, 2), Some(28));
    assert_eq!(last_day_of_month(1900, 2), Some(28));
    assert_eq!(last_day_of_month(2000, 2), Some(29));
    assert_eq!(last_day_of_month(2023, 4), Some(30));
    assert_eq!(last_day_of_month(2023, 12), Some(31));
    assert_eq!(last_day_of_month(2023, 13), None);
}

#[test]
fn shifting_months_cuts_the_day_and_keeps_the_time() {
    assert_eq!(shift_months(at(2024, 1, 31, 10, 30, 15), 1), Some(at(2024, 2, 29, 10, 30, 15)));
    assert_eq!(shift_months(at(2023, 1, 31, 8, 0, 0), 1), Some(at(2023, 2, 28, 8, 0, 0)));
    assert_eq!(shift_months(at(2024, 2, 29, 0, 0, 0), 12), Some(at(2025, 2, 28, 0, 0, 0)));
    assert_eq!(shift_months(at(2023, 12, 15, 9, 0, 0), 1), Some(at(2024, 1, 15, 9, 0, 0)));
    assert_eq!(shift_months(at(2024, 3, 15, 9, 0, 0), -3), Some(at(2023, 12, 15, 9, 0, 0)));
}

#[test]
fn fixed_recurrences() {
    assert_eq!(next_recurrence_timestamp(1_000, "daily"), Some(87_400));
    assert_eq!(next_recurrence_timestamp(1_000, "weekly"), Some(605_800));
    assert_eq!(next_recurrence_timestamp(1_000, "hourly"), None);
    assert_eq!(next_recurrence_timestamp(1_000, "Daily"), None);
}

#[test]
fn calendar_recurrences_move_by_months() {
    let start = parse_datetime_local("2026-01-31 09:00").unwrap();
    let next = next_recurrence_timestamp(start, "monthly").unwrap();
    assert_eq!(format_datetime(Some(next)), "2026-02-28 09:00");
    let year = next_recurrence_timestamp(start, "yearly").unwrap();
    assert_eq!(format_datetime(Some(year)), "2027-01-31 09:00");
}

#[test]
fn instants_of_a_local_time() {
    assert_eq!(earliest_instant(LocalTime::Gap), None);
    assert_eq!(earliest_instant(LocalTime::Single(42)), Some(42));
    assert_eq!(earliest_instant(LocalTime::Ambiguous(5, 9)), Some(5));
    assert_eq!(single_instant_or_error("x", LocalTime::Single(7)), Ok(7));
    assert_eq!(
        single_instant_or_error("2026-03-29 02:30", LocalTime::Gap),
        Err("Invalid or ambiguous local time: 2026-03-29 02:30".to_string())
    );
    assert!(single_instant_or_error("x", LocalTime::Ambiguous(1, 2)).is_err());
}
