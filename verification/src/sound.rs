//! Whether a reminder sound is played.
use vstd::prelude::*;
use crate::text::{trim_seq, trim_str};

verus! {

/// A sound file is played unless its path is blank.
pub fn should_play_sound(sound_path: &str) -> (r: bool)
    ensures
        r == (trim_seq(sound_path@).len() != 0),
{
    trim_str(sound_path).len() != 0
}

} // verus!
