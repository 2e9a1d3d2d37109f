//! What each operating system's notification and sound commands are given.
use vstd::prelude::*;
use crate::config::Config;
use crate::text::{string_from_chars, trim_seq, trim_str};

pub mod linux;
pub mod macos;
pub mod unsupported;
pub mod windows;

verus! {

/// The sound file to play for a reminder: none when sound is off or no file
/// is set, else the file's path without surrounding white space.
pub fn configured_sound(config: &Config) -> (r: Option<String>)
    ensures
        !config.enable_sound ==> r is None,
        config.enable_sound && trim_seq(config.sound_file@).len() == 0 ==> r is None,
        config.enable_sound && trim_seq(config.sound_file@).len() != 0 ==> (r matches Some(p) && p@
            == trim_seq(config.sound_file@)),
{
    if !config.enable_sound {
        return None;
    }
    let path = trim_str(config.sound_file.as_str());
    if path.len() == 0 {
        return None;
    }
    Some(string_from_chars(&path))
}

} // verus!
