use todo::config::{Config, Platform};
use todo::notify::{plan_reminders, reminder_body, snooze_seconds};
use todo::platform::configured_sound;
use todo::platform::linux::{notify_args, sound_file};
use todo::platform::macos::{escape_applescript, notification_script};
use todo::platform::unsupported;
use todo::platform::windows::{escape_powershell, toast_command};
use todo::sound::should_play_sound;
use todo::task::{Status, Task};

fn task(id: i64, title: &str, description: Option<&str>) -> Task {
    Task {
        id,
        title: title.to_string(),
        description: description.map(|d| d.to_string()),
        project_id: None,
        status: Status::Todo,
        priority: 1,
        deadline: None,
        reminder: Some(100),
        recurrence: None,
    }
}

#[test]
fn reminder_texts() {
    assert_eq!(reminder_body(&"Call".to_string(), &None), "Call");
    assert_eq!(reminder_body(&"Call".to_string(), &Some(String::new())), "Call");
    assert_eq!(reminder_body(&"Call".to_string(), &Some("Bob".to_string())), "Call\nBob");
    assert_eq!(snooze_seconds(15), 900);
    assert_eq!(snooze_seconds(0), 0);
    assert_eq!(snooze_seconds(-3), 0);
}

#[test]
fn planning_reminders_with_snooze_and_sound() {
    let config = Config { enable_sound: true, sound_file: "/s.oga".to_string() };
    let plan = plan_reminders(&vec![task(1, "A", Some("details")), task(2, "B", None)], 1_000, 15, &config);
    assert_eq!(plan.len(), 2);
    assert_eq!(plan[0].task_id, 1);
    assert_eq!(plan[0].body, "A\ndetails");
    assert_eq!(plan[0].snooze_label, Some("Snooze 15m".to_string()));
    assert_eq!(plan[0].snooze_until, Some(1_900));
    assert_eq!(plan[0].sound, Some("/s.oga".to_string()));
    assert_eq!(plan[1].body, "B");
}

#[test]
fn planning_reminders_without_snooze_or_sound() {
    let config = Config::default_for(Platform::Windows);
    let plan = plan_reminders(&vec![task(3, "C", None)], 1_000, 0, &config);
    assert_eq!(plan[0].snooze_label, None);
    assert_eq!(plan[0].snooze_until, None);
    assert_eq!(plan[0].sound, None);
    assert!(plan_reminders(&vec![], 5, 15, &config).is_empty());
}

#[test]
fn sounds() {
    assert!(should_play_sound("/a.oga"));
    assert!(!should_play_sound("   "));
    let on = Config { enable_sound: true, sound_file: "  /a.oga ".to_string() };
    assert_eq!(configured_sound(&on), Some("/a.oga".to_string()));
    assert_eq!(sound_file(&on), Some("/a.oga".to_string()));
    let blank = Config { enable_sound: true, sound_file: " ".to_string() };
    assert_eq!(configured_sound(&blank), None);
    let off = Config { enable_sound: false, sound_file: "/a.oga".to_string() };
    assert_eq!(configured_sound(&off), None);
}

#[test]
fn notification_commands() {
    assert_eq!(notify_args("Task Reminder", "Call Bob"), vec!["Task Reminder", "Call Bob"]);
    assert_eq!(escape_applescript("say \"hi\"\\\r\nnext"), "say \\\"hi\\\"\\\\\\nnext");
    assert_eq!(
        notification_script("Task \"R\"", "line1\nline2"),
        "display notification \"line1\\nline2\" with title \"Task \\\"R\\\"\""
    );
    assert_eq!(escape_powershell("it's"), "it''s");
    assert_eq!(
        toast_command("Task Reminder", "Bob's call"),
        "New-BurntToastNotification -Text 'Task Reminder','Bob''s call'"
    );
    assert_eq!(unsupported::notify("a", "b"), Ok(()));
    assert_eq!(unsupported::play_sound(), Ok(()));
    assert_eq!(todo::platform::windows::play_sound(), Ok(()));
}
