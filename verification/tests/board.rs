use todo::civil::CivilDate;
use todo::task::{format_datetime, parse_datetime_local, Status, Task};
use todo::tui::app::{AddField, App, Focus, Mode, ProjectEntry, TimeField, TimePicker};
use todo::tui::calendar::{days_in_month, month_name, CalendarState};
use todo::tui::editing::{char_count, char_to_byte_index, delete_char, insert_char};
use todo::tui::events::{
    after_move, after_task_saved, extract_time, format_datetime_input, handle_key, increment_time, key_in_range,
    next_field, prev_field, rename_outcome, Effect, KeyCode, KeyEvent,
};
use todo::tui::search::rank_by_score;
use todo::tui::view::{calendar_lines, cursor_position_add, footer_text, header_title, list_state, project_state};

fn task(id: i64, title: &str, status: Status) -> Task {
    Task {
        id,
        title: title.to_string(),
        description: None,
        project_id: None,
        status,
        priority: 1,
        deadline: None,
        reminder: None,
        recurrence: None,
    }
}

fn key(code: KeyCode) -> KeyEvent {
    KeyEvent { code, control: false }
}

fn far_calendar() -> CalendarState {
    CalendarState::from_date(CivilDate { year: 2099, month: 1, day: 15 })
}

fn board() -> App {
    App::with_data(
        vec![
            task(1, "Buy milk", Status::Todo),
            task(2, "Write paper", Status::Todo),
            task(3, "Milk the cow", Status::InProgress),
            task(4, "File taxes", Status::Done),
        ],
        vec![
            ProjectEntry { id: None, name: "All".to_string() },
            ProjectEntry { id: Some(7), name: "Work".to_string() },
        ],
        far_calendar(),
    )
}

fn press(app: &mut App, code: KeyCode) -> Effect {
    handle_key(app, key(code))
}

#[test]
fn starting_state() {
    let app = board();
    assert_eq!(app.mode, Mode::Normal);
    assert_eq!(app.focus, Focus::Tasks);
    assert_eq!(app.board.column, 0);
    assert_eq!(app.board.row, 0);
    assert_eq!(app.board_indices(), vec![vec![0, 1], vec![2], vec![3]]);
    assert_eq!(app.selected_task().unwrap().id, 1);
    assert_eq!(header_title(&app), "Todo (All)");
    assert_eq!(
        footer_text(&app),
        "tab:focus a:add e:edit d:delete x:done /:search left/right:column h/l:move q:quit"
    );
}

#[test]
fn moving_through_the_board() {
    let mut app = board();
    assert!(matches!(press(&mut app, KeyCode::Down), Effect::Nothing));
    assert_eq!(app.board.row, 1);
    press(&mut app, KeyCode::Down);
    assert_eq!(app.board.row, 1);
    press(&mut app, KeyCode::Right);
    assert_eq!(app.board.column, 1);
    assert_eq!(app.board.row, 0);
    assert_eq!(app.selected_task().unwrap().id, 3);
    press(&mut app, KeyCode::Right);
    press(&mut app, KeyCode::Right);
    assert_eq!(app.board.column, 2);
    press(&mut app, KeyCode::Up);
    assert_eq!(app.board.row, 0);
    press(&mut app, KeyCode::Left);
    assert_eq!(app.board.column, 1);
}

#[test]
fn task_keys_ask_for_changes() {
    let mut app = board();
    match press(&mut app, KeyCode::Char('x')) {
        Effect::MarkDone(id) => assert_eq!(id, 1),
        _ => panic!("expected MarkDone"),
    }
    match press(&mut app, KeyCode::Char('d')) {
        Effect::DeleteTask(id) => assert_eq!(id, 1),
        _ => panic!("expected DeleteTask"),
    }
    match press(&mut app, KeyCode::Char('l')) {
        Effect::MoveTask { id, status, column } => {
            assert_eq!(id, 1);
            assert_eq!(status, Status::InProgress);
            assert_eq!(column, 1);
        }
        _ => panic!("expected MoveTask"),
    }
    assert!(matches!(press(&mut app, KeyCode::Char('h')), Effect::MoveTask { column: 0, .. }));
    assert_eq!(app.tasks.len(), 4);
    press(&mut app, KeyCode::Char('q'));
    assert!(app.should_quit);
}

#[test]
fn moving_a_task_follows_it() {
    let mut app = board();
    let mut tasks = vec![
        task(1, "Buy milk", Status::InProgress),
        task(2, "Write paper", Status::Todo),
        task(3, "Milk the cow", Status::InProgress),
        task(4, "File taxes", Status::Done),
    ];
    tasks.swap(0, 2);
    after_move(&mut app, tasks, 1, 1);
    assert_eq!(app.board.column, 1);
    assert_eq!(app.selected_task().unwrap().id, 1);
    assert_eq!(app.board.row, 1);
}

#[test]
fn searching_ranks_the_matches() {
    let mut app = board();
    press(&mut app, KeyCode::Char('/'));
    assert_eq!(app.mode, Mode::Search);
    for c in "milk".chars() {
        press(&mut app, KeyCode::Char(c));
    }
    assert_eq!(app.search_query, "milk");
    assert_eq!(header_title(&app), "Todo (All) (search: milk)");
    let visible = app.visible_indices();
    assert_eq!(visible.len(), 2);
    assert!(visible.contains(&0));
    assert!(visible.contains(&2));
    assert_eq!(app.board_indices(), vec![vec![0], vec![2], vec![]]);
    press(&mut app, KeyCode::Backspace);
    assert_eq!(app.search_query, "mil");
    // a capital letter makes the search case-sensitive
    press(&mut app, KeyCode::Esc);
    assert_eq!(app.mode, Mode::Normal);
    assert_eq!(app.search_query, "");
    press(&mut app, KeyCode::Char('/'));
    press(&mut app, KeyCode::Char('M'));
    assert_eq!(app.visible_indices(), vec![2]);
    press(&mut app, KeyCode::Enter);
    assert_eq!(app.visible_indices(), vec![0, 1, 2, 3]);
}

#[test]
fn ranking_is_by_score_then_order() {
    assert_eq!(rank_by_score(&vec![(5, 0), (9, 1), (5, 2), (7, 3)]), vec![1, 3, 0, 2]);
    assert_eq!(rank_by_score(&vec![]), Vec::<usize>::new());
}

#[test]
fn adding_a_task_through_the_form() {
    let mut app = board();
    press(&mut app, KeyCode::Char('a'));
    assert_eq!(app.mode, Mode::AddTask);
    assert_eq!(header_title(&app), "Todo (add task)");
    for c in "Tea".chars() {
        press(&mut app, KeyCode::Char(c));
    }
    assert_eq!(app.add_form.title, "Tea");
    press(&mut app, KeyCode::Left);
    press(&mut app, KeyCode::Char('x'));
    assert_eq!(app.add_form.title, "Texa");
    press(&mut app, KeyCode::Backspace);
    assert_eq!(app.add_form.title, "Tea");
    assert_eq!(app.add_form.cursor_title, 2);
    press(&mut app, KeyCode::Tab);
    assert_eq!(app.add_form.field, AddField::Project);
    press(&mut app, KeyCode::Right);
    assert_eq!(app.add_form.project_index, 1);
    press(&mut app, KeyCode::Tab);
    for c in "2026-03-15 18:00".chars() {
        press(&mut app, KeyCode::Char(c));
    }
    press(&mut app, KeyCode::Tab);
    press(&mut app, KeyCode::Tab);
    assert_eq!(app.add_form.field, AddField::Priority);
    press(&mut app, KeyCode::Right);
    press(&mut app, KeyCode::Right);
    press(&mut app, KeyCode::Right);
    press(&mut app, KeyCode::Right);
    assert_eq!(app.add_form.priority, 4);
    match press(&mut app, KeyCode::Enter) {
        Effect::SaveTask(draft) => {
            assert_eq!(draft.edit_id, None);
            assert_eq!(draft.title, "Tea");
            assert_eq!(draft.project_id, Some(7));
            assert_eq!(draft.priority, 4);
            assert_eq!(format_datetime(draft.deadline), "2026-03-15 18:00");
            assert_eq!(draft.reminder, None);
        }
        _ => panic!("expected SaveTask"),
    }
    after_task_saved(&mut app, Some(vec![task(9, "Tea", Status::Todo)]));
    assert_eq!(app.mode, Mode::Normal);
    assert_eq!(app.tasks.len(), 1);
}

#[test]
fn the_form_refuses_bad_input() {
    let mut app = board();
    press(&mut app, KeyCode::Char('a'));
    assert!(matches!(press(&mut app, KeyCode::Enter), Effect::Nothing));
    assert_eq!(app.status, "Title is required");
    assert_eq!(footer_text(&app), "Title is required");
    press(&mut app, KeyCode::Char('T'));
    press(&mut app, KeyCode::Tab);
    press(&mut app, KeyCode::Tab);
    for c in "soon".chars() {
        press(&mut app, KeyCode::Char(c));
    }
    assert!(matches!(press(&mut app, KeyCode::Enter), Effect::Nothing));
    assert_eq!(app.status, "Invalid datetime: soon (expected YYYY-MM-DD HH:MM)");
    press(&mut app, KeyCode::Esc);
    assert_eq!(app.mode, Mode::Normal);
}

#[test]
fn editing_fills_the_form() {
    let mut app = board();
    app.tasks[0].deadline = Some(parse_datetime_local("2026-03-15 18:00").unwrap());
    app.tasks[0].priority = 3;
    press(&mut app, KeyCode::Char('e'));
    assert_eq!(app.mode, Mode::AddTask);
    assert_eq!(app.edit_id, Some(1));
    assert_eq!(app.add_form.title, "Buy milk");
    assert_eq!(app.add_form.cursor_title, 8);
    assert_eq!(app.add_form.deadline, "2026-03-15 18:00");
    assert_eq!(app.add_form.reminder, "");
    assert_eq!(app.add_form.priority, 3);
    match press(&mut app, KeyCode::Enter) {
        Effect::SaveTask(draft) => assert_eq!(draft.edit_id, Some(1)),
        _ => panic!("expected SaveTask"),
    }
}

#[test]
fn picking_a_date_and_time() {
    let mut app = board();
    press(&mut app, KeyCode::Char('a'));
    press(&mut app, KeyCode::Tab);
    press(&mut app, KeyCode::Tab);
    assert_eq!(app.add_form.field, AddField::Deadline);
    handle_key(&mut app, KeyEvent { code: KeyCode::Char('o'), control: true });
    assert_eq!(app.mode, Mode::Calendar);
    for code in [KeyCode::Right, KeyCode::Down, KeyCode::PageDown] {
        assert!(key_in_range(&app, key(code)));
        press(&mut app, code);
    }
    assert_eq!(app.calendar.selected_date(), CivilDate { year: 2099, month: 2, day: 23 });
    press(&mut app, KeyCode::Enter);
    assert_eq!(app.mode, Mode::Time);
    assert_eq!(app.time_picker, TimePicker { hour: 9, minute: 0, field: TimeField::Hour });
    press(&mut app, KeyCode::Down);
    press(&mut app, KeyCode::Tab);
    press(&mut app, KeyCode::PageDown);
    assert_eq!(app.time_picker, TimePicker { hour: 8, minute: 55, field: TimeField::Minute });
    press(&mut app, KeyCode::Enter);
    assert_eq!(app.mode, Mode::AddTask);
    assert_eq!(app.add_form.deadline, "2099-02-23 08:55");
}

#[test]
fn projects_panel() {
    let mut app = board();
    handle_key(&mut app, key(KeyCode::Tab));
    assert_eq!(app.focus, Focus::Projects);
    assert_eq!(footer_text(&app), "tab:focus a:add e:edit d:delete /:search q:quit");
    assert!(matches!(press(&mut app, KeyCode::Char('d')), Effect::Nothing));
    assert_eq!(app.status, "Cannot delete All project");
    press(&mut app, KeyCode::Char('e'));
    assert_eq!(app.status, "Cannot edit All project");
    assert_eq!(app.mode, Mode::Normal);
    assert_eq!(app.task_filter(), None);
    press(&mut app, KeyCode::Down);
    assert_eq!(app.selected_project, 1);
    assert_eq!(app.task_filter(), Some(7));
    assert_eq!(header_title(&app), "Todo (Work)");
    assert!(matches!(press(&mut app, KeyCode::Char('d')), Effect::DeleteProject(7)));
    press(&mut app, KeyCode::Char('a'));
    assert_eq!(app.mode, Mode::Project);
    assert!(matches!(press(&mut app, KeyCode::Enter), Effect::Nothing));
    assert_eq!(app.status, "Project name is required");
    for c in "Home".chars() {
        press(&mut app, KeyCode::Char(c));
    }
    match press(&mut app, KeyCode::Enter) {
        Effect::SaveProject { edit_id, name } => {
            assert_eq!(edit_id, None);
            assert_eq!(name, "Home");
        }
        _ => panic!("expected SaveProject"),
    }
    assert_eq!(rename_outcome(0, 7), Err("No project with that id".to_string()));
    assert_eq!(rename_outcome(1, 7), Ok(7));
}

#[test]
fn form_helpers() {
    assert_eq!(next_field(AddField::Priority), AddField::Title);
    assert_eq!(prev_field(AddField::Title), AddField::Priority);
    for f in [AddField::Title, AddField::Project, AddField::Deadline, AddField::Reminder, AddField::Priority] {
        assert_eq!(prev_field(next_field(f)), f);
    }
    let mut picker = TimePicker { hour: 23, minute: 58, field: TimeField::Hour };
    increment_time(&mut picker, 1);
    assert_eq!(picker.hour, 0);
    increment_time(&mut picker, -1);
    assert_eq!(picker.hour, 23);
    picker.field = TimeField::Minute;
    increment_time(&mut picker, 5);
    assert_eq!(picker.minute, 3);
    increment_time(&mut picker, -5);
    assert_eq!(picker.minute, 58);
    assert_eq!(extract_time("2026-03-15 18:05"), Some((18, 5)));
    assert_eq!(extract_time("2026-03-15 8:05  "), Some((8, 5)));
    assert_eq!(extract_time("2026-03-15"), None);
    assert_eq!(extract_time(""), None);
    assert_eq!(format_datetime_input(None), "");
    let ts = parse_datetime_local("2026-03-15 18:00").unwrap();
    assert_eq!(format_datetime_input(Some(ts)), "2026-03-15 18:00");
}

#[test]
fn editing_by_characters() {
    let mut s = "héllo".to_string();
    assert_eq!(char_count(&s), 5);
    assert_eq!(char_to_byte_index(&s, 2), 3);
    assert_eq!(char_to_byte_index(&s, 9), 6);
    insert_char(&mut s, 2, 'ü');
    assert_eq!(s, "héüllo");
    delete_char(&mut s, 1);
    assert_eq!(s, "hüllo");
    insert_char(&mut s, 99, '!');
    assert_eq!(s, "hüllo!");
    delete_char(&mut s, 99);
    assert_eq!(s, "hüllo!");
    delete_char(&mut s, 0);
    assert_eq!(s, "üllo!");
}

#[test]
fn highlighted_rows() {
    assert_eq!(project_state(5, 3), Some(2));
    assert_eq!(project_state(1, 3), Some(1));
    assert_eq!(project_state(0, 0), None);
    assert_eq!(list_state(4, true, 2), Some(1));
    assert_eq!(list_state(0, false, 2), None);
    assert_eq!(list_state(0, true, 0), None);
}

#[test]
fn form_cursor_position() {
    let mut app = board();
    press(&mut app, KeyCode::Char('a'));
    press(&mut app, KeyCode::Char('a'));
    press(&mut app, KeyCode::Char('b'));
    assert_eq!(cursor_position_add(&app, 10, 5), Some((19, 5)));
    press(&mut app, KeyCode::Tab);
    assert_eq!(cursor_position_add(&app, 10, 5), None);
    press(&mut app, KeyCode::Tab);
    press(&mut app, KeyCode::Char('2'));
    assert_eq!(cursor_position_add(&app, 10, 5), Some((40, 7)));
}

#[test]
fn month_grid() {
    let cal = CalendarState::from_date(CivilDate { year: 2026, month: 3, day: 15 });
    let lines = calendar_lines(&cal);
    assert_eq!(lines.len(), 8);
    assert_eq!(lines[0], "March 2026");
    assert_eq!(lines[1], "Mo  Tu  We  Th  Fr  Sa  Su  ");
    assert_eq!(lines[2], format!("{}{}", " ".repeat(24), "  1 "));
    assert_eq!(lines[4], "  9  10  11  12  13  14 [15]");
    assert_eq!(lines[7], format!("{}{}", " 30  31 ", " ".repeat(20)));
    assert_eq!(month_name(2), "February");
    assert_eq!(month_name(0), "");
    assert_eq!(days_in_month(2024, 2), 29);
    assert_eq!(days_in_month(2023, 12), 31);
}

#[test]
fn the_picker_stays_out_of_the_past() {
    let mut cal = CalendarState::from_date(CivilDate { year: 2026, month: 3, day: 15 });
    cal.clamp_to(CivilDate { year: 2026, month: 3, day: 20 });
    assert_eq!(cal.selected_date(), CivilDate { year: 2026, month: 3, day: 20 });
    cal.move_days_from(-7, CivilDate { year: 2026, month: 3, day: 1 });
    assert_eq!(cal.selected_date(), CivilDate { year: 2026, month: 3, day: 13 });
    cal.move_days_from(-30, CivilDate { year: 2026, month: 3, day: 1 });
    assert_eq!(cal.selected_date(), CivilDate { year: 2026, month: 3, day: 1 });
    let mut end = CalendarState::from_date(CivilDate { year: 2026, month: 1, day: 31 });
    end.move_months_from(1, CivilDate { year: 2000, month: 1, day: 1 });
    assert_eq!(end.selected_date(), CivilDate { year: 2026, month: 2, day: 28 });
    end.move_months_from(-2, CivilDate { year: 2000, month: 1, day: 1 });
    assert_eq!(end.selected_date(), CivilDate { year: 2025, month: 12, day: 28 });
}
