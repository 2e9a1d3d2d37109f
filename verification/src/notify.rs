//! Reminder notifications: which tasks to announce, with what text, and
//! how far to push each reminder back.
use vstd::prelude::*;
use vstd::string::StringExecFns;
use crate::config::Config;
use crate::task::Task;
use crate::text::{decimal_int, i64_digits, append_chars};

verus! {

/// One notification to show, and what to do after it.
pub struct Reminder {
    pub task_id: i64,
    pub body: String,
    /// The label of the snooze action, when snoozing is on.
    pub snooze_label: Option<String>,
    /// The new reminder time, when snoozing is on.
    pub snooze_until: Option<i64>,
    /// The sound file to play, when sound is on.
    pub sound: Option<String>,
}

/// The text of a reminder: the title, and the description on a second line
/// when there is a non-empty one.
pub open spec fn reminder_body_text(title: Seq<char>, description: Option<Seq<char>>) -> Seq<char> {
    match description {
        Some(d) => if d.len() > 0 { title + seq!['\n'] + d } else { title },
        None => title,
    }
}

/// Seconds of snooze for a number of minutes; a negative number means none.
pub open spec fn snooze_seconds_of(minutes: int) -> int {
    if minutes > 0 { minutes * 60 } else { 0 }
}

pub open spec fn snooze_label_text(minutes: int) -> Seq<char> {
    "Snooze "@ + decimal_int(minutes) + "m"@
}

pub fn reminder_body(title: &String, description: &Option<String>) -> (r: String)
    ensures
        r@ == reminder_body_text(
            title@,
            match description {
                Some(d) => Some(d@),
                None => None,
            },
        ),
{
    let mut r = title.clone();
    match description {
        Some(d) => {
            if !d.as_str().is_empty() {
                r.append("\n");
                r.append(d.as_str());
                proof {
                    reveal_strlit("\n");
                }
            }
        },
        None => {},
    }
    r
}

pub fn snooze_seconds(minutes: i64) -> (r: i64)
    requires
        minutes <= i64::MAX / 60,
    ensures
        r == snooze_seconds_of(minutes as int),
{
    if minutes > 0 {
        minutes * 60
    } else {
        0
    }
}

/// The notifications for the due tasks, in order: each shows the task's
/// text; when `snooze_minutes` is positive it offers a snooze action and
/// moves the reminder to `now` plus that time; when sound is on it plays
/// the configured file.
pub fn plan_reminders(tasks: &Vec<Task>, now: i64, snooze_minutes: i64, config: &Config) -> (r: Vec<Reminder>)
    requires
        snooze_minutes <= i64::MAX / 60,
        now + snooze_seconds_of(snooze_minutes as int) <= i64::MAX,
    ensures
        r.len() == tasks.len(),
        forall|i: int|
            0 <= i < r.len() ==> {
                let t = #[trigger] tasks[i];
                let p = r[i];
                &&& p.task_id == t.id
                &&& p.body@ == reminder_body_text(
                    t.title@,
                    match t.description {
                        Some(d) => Some(d@),
                        None => None,
                    },
                )
                &&& (snooze_minutes > 0 ==> (p.snooze_label matches Some(l) && l@
                    == snooze_label_text(snooze_minutes as int)))
                &&& (snooze_minutes <= 0 ==> p.snooze_label is None)
                &&& (snooze_minutes > 0 ==> p.snooze_until == Some(
                    (now + snooze_seconds_of(snooze_minutes as int)) as i64,
                ))
                &&& (snooze_minutes <= 0 ==> p.snooze_until is None)
                &&& (config.enable_sound ==> (p.sound matches Some(s) && s@ == config.sound_file@))
                &&& (!config.enable_sound ==> p.sound is None)
            },
{
    let seconds = snooze_seconds(snooze_minutes);
    let mut r: Vec<Reminder> = Vec::new();
    let mut i: usize = 0;
    while i < tasks.len()
        invariant
            i <= tasks.len(),
            r.len() == i,
            seconds == snooze_seconds_of(snooze_minutes as int),
            now + seconds <= i64::MAX,
            forall|k: int|
                0 <= k < r.len() ==> {
                    let t = #[trigger] tasks[k];
                    let p = r[k];
                    &&& p.task_id == t.id
                    &&& p.body@ == reminder_body_text(
                        t.title@,
                        match t.description {
                            Some(d) => Some(d@),
                            None => None,
                        },
                    )
                    &&& (snooze_minutes > 0 ==> (p.snooze_label matches Some(l) && l@
                        == snooze_label_text(snooze_minutes as int)))
                    &&& (snooze_minutes <= 0 ==> p.snooze_label is None)
                    &&& (snooze_minutes > 0 ==> p.snooze_until == Some(
                        (now + snooze_seconds_of(snooze_minutes as int)) as i64,
                    ))
                    &&& (snooze_minutes <= 0 ==> p.snooze_until is None)
                    &&& (config.enable_sound ==> (p.sound matches Some(s) && s@
                        == config.sound_file@))
                    &&& (!config.enable_sound ==> p.sound is None)
                },
        decreases tasks.len() - i,
    {
        let task = &tasks[i];
        let body = reminder_body(&task.title, &task.description);
        let (label, until) = if seconds > 0 {
            let mut l = "Snooze ".to_owned();
            append_chars(&mut l, &i64_digits(snooze_minutes));
            l.append("m");
            (Some(l), Some(now + seconds))
        } else {
            (None, None)
        };
        let sound = if config.enable_sound {
            Some(config.sound_file.clone())
        } else {
            None
        };
        r.push(
            Reminder {
                task_id: task.id,
                body: body,
                snooze_label: label,
                snooze_until: until,
                sound: sound,
            },
        );
        i = i + 1;
    }
    r
}

} // verus!
