//! Linux: `notify-send` shows notifications and `paplay` plays sounds.
use vstd::prelude::*;
use crate::config::Config;
use crate::text::trim_seq;

verus! {

/// The arguments of `notify-send`: the title, then the message.
pub fn notify_args(title: &str, message: &str) -> (r: Vec<String>)
    ensures
        r.len() == 2,
        r[0]@ == title@,
        r[1]@ == message@,
{
    let mut r: Vec<String> = Vec::new();
    r.push(title.to_owned());
    r.push(message.to_owned());
    r
}

/// The file that `paplay` is given, if a sound is to be played.
pub fn sound_file(config: &Config) -> (r: Option<String>)
    ensures
        !config.enable_sound ==> r is None,
        config.enable_sound && trim_seq(config.sound_file@).len() == 0 ==> r is None,
        config.enable_sound && trim_seq(config.sound_file@).len() != 0 ==> (r matches Some(p) && p@
            == trim_seq(config.sound_file@)),
{
    crate::platform::configured_sound(config)
}

} // verus!
