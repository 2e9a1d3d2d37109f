use chrono::{Datelike, NaiveDate};
use todo::civil::{
    date_chars, day_count, days_of_month, format_date, format_date_time, hour_minute_chars, is_date_before,
    is_leap_exec, is_valid_date, two_digit_chars, weekday_index, year_chars, CivilDate, CivilDateTime,
};
use todo::text::{
    append_chars, char_is_white_space, char_utf8_len, chars_of, digit_to_char, i64_digits, pad_left, pad_right,
    string_from_chars, trim_chars, trim_str, u64_digits,
};

fn text(v: Vec<char>) -> String {
    v.into_iter().collect()
}

fn date(year: i32, month: u32, day: u32) -> CivilDate {
    CivilDate { year, month, day }
}

#[test]
fn trimming_matches_str_trim() {
    for s in ["  a b  ", "\t\nx\u{3000}", "", "   ", "no-space", "\u{a0}y\u{85}"] {
        assert_eq!(text(trim_str(s)), s.trim());
        assert_eq!(text(trim_chars(&s.chars().collect())), s.trim());
    }
    assert!(char_is_white_space('\u{2028}'));
    assert!(!char_is_white_space('x'));
    assert!(!char_is_white_space('\u{200b}'));
}

#[test]
fn characters_and_strings() {
    assert_eq!(chars_of("héllo"), vec!['h', 'é', 'l', 'l', 'o']);
    assert_eq!(string_from_chars(&vec!['a', 'é']), "aé");
    let mut s = "ab".to_string();
    append_chars(&mut s, &vec!['c', 'd']);
    assert_eq!(s, "abcd");
    assert_eq!(char_utf8_len('a'), 1);
    assert_eq!(char_utf8_len('é'), 2);
    assert_eq!(char_utf8_len('€'), 3);
    assert_eq!(char_utf8_len('😀'), 4);
}

#[test]
fn numbers_as_text() {
    assert_eq!(digit_to_char(7), '7');
    assert_eq!(text(u64_digits(0)), "0");
    assert_eq!(text(u64_digits(18_446_744_073_709_551_615)), "18446744073709551615");
    assert_eq!(text(i64_digits(-42)), "-42");
    assert_eq!(text(i64_digits(i64::MIN)), i64::MIN.to_string());
    assert_eq!(text(pad_left(&vec!['7'], '0', 3)), "007");
    assert_eq!(text(pad_left(&vec!['1', '2', '3', '4'], '0', 2)), "1234");
    assert_eq!(text(pad_right(&vec!['a'], 3)), "a  ");
    assert_eq!(text(pad_right(&vec!['a', 'b'], 1)), "ab");
}

#[test]
fn calendar_rules() {
    assert!(is_leap_exec(2024));
    assert!(is_leap_exec(2000));
    assert!(!is_leap_exec(1900));
    assert!(!is_leap_exec(2023));
    assert!(is_valid_date(2024, 2, 29));
    assert!(!is_valid_date(2023, 2, 29));
    assert!(!is_valid_date(2023, 4, 31));
    assert!(!is_valid_date(2023, 0, 1));
    assert!(!is_valid_date(2023, 1, 0));
    assert_eq!(days_of_month(2023, 2), 28);
    assert_eq!(days_of_month(2024, 2), 29);
    assert_eq!(days_of_month(2024, 11), 30);
    assert!(is_date_before(date(2025, 12, 31), date(2026, 1, 1)));
    assert!(is_date_before(date(2026, 1, 1), date(2026, 1, 2)));
    assert!(!is_date_before(date(2026, 1, 2), date(2026, 1, 2)));
    assert!(!is_date_before(date(2026, 2, 1), date(2026, 1, 31)));
}

#[test]
fn day_counts_and_weekdays_agree_with_chrono() {
    let samples = [(1970, 1, 1), (2026, 3, 15), (2000, 2, 29), (1, 1, 1), (-44, 3, 15), (9999, 12, 31)];
    for (y, m, d) in samples {
        let n = NaiveDate::from_ymd_opt(y, m, d).unwrap();
        let ours = date(y, m, d);
        assert_eq!(day_count(ours) - day_count(date(1970, 1, 1)), (n - NaiveDate::from_ymd_opt(1970, 1, 1).unwrap()).num_days());
        assert_eq!(weekday_index(ours), n.weekday().num_days_from_monday());
    }
    assert_eq!(weekday_index(date(2026, 3, 15)), 6);
    assert_eq!(weekday_index(date(1970, 1, 1)), 3);
}

#[test]
fn formatting_agrees_with_chrono() {
    let samples = [(2026, 3, 5, 7, 9), (1, 1, 1, 0, 0), (0, 12, 31, 23, 59), (-5, 6, 1, 12, 30), (12345, 1, 2, 3, 4)];
    for (y, m, d, h, mi) in samples {
        let n = NaiveDate::from_ymd_opt(y, m, d).unwrap().and_hms_opt(h, mi, 0).unwrap();
        let dt = CivilDateTime { date: date(y, m, d), hour: h, minute: mi, second: 0 };
        assert_eq!(format_date_time(dt), n.format("%Y-%m-%d %H:%M").to_string());
        assert_eq!(format_date(dt.date), n.format("%Y-%m-%d").to_string());
        assert_eq!(text(date_chars(dt.date)), n.format("%Y-%m-%d").to_string());
        assert_eq!(text(year_chars(y)), n.format("%Y").to_string());
    }
    assert_eq!(text(year_chars(-5)), "-0005");
    assert_eq!(text(year_chars(12345)), "+12345");
    assert_eq!(text(two_digit_chars(7)), "07");
    assert_eq!(text(hour_minute_chars(9, 5)), "09:05");
}
