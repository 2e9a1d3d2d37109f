//! Other systems: notifications and sounds are silently skipped.
use vstd::prelude::*;

verus! {

pub fn notify(_title: &str, _message: &str) -> (r: Result<(), String>)
    ensures
        r is Ok,
{
    Ok(())
}

pub fn play_sound() -> (r: Result<(), String>)
    ensures
        r is Ok,
{
    Ok(())
}

} // verus!
