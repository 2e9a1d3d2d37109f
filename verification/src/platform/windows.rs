//! Windows: a PowerShell `New-BurntToastNotification` command; no sound.
use vstd::prelude::*;
use vstd::string::StringExecFns;
use crate::text::{chars_of, push_char};

verus! {

/// A text escaped for a single-quoted PowerShell string: each `'` doubled.
pub open spec fn powershell_escaped(s: Seq<char>) -> Seq<char>
    decreases s.len(),
{
    if s.len() == 0 {
        Seq::empty()
    } else {
        powershell_escaped(s.drop_last()) + if s.last() == '\'' {
            seq!['\'', '\'']
        } else {
            seq![s.last()]
        }
    }
}

pub fn escape_powershell(input: &str) -> (r: String)
    ensures
        r@ == powershell_escaped(input@),
{
    let cs = chars_of(input);
    let mut escaped = String::new();
    let mut i: usize = 0;
    while i < cs.len()
        invariant
            i <= cs.len(),
            escaped@ == powershell_escaped(cs@.take(i as int)),
        decreases cs.len() - i,
    {
        let ch = cs[i];
        let ghost before = escaped@;
        push_char(&mut escaped, ch);
        if ch == '\'' {
            push_char(&mut escaped, '\'');
        }
        assert(cs@.take(i + 1).drop_last() =~= cs@.take(i as int));
        assert(escaped@ =~= powershell_escaped(cs@.take(i + 1)));
        i = i + 1;
    }
    assert(cs@.take(cs@.len() as int) =~= cs@);
    escaped
}

/// The PowerShell command that shows a notification.
pub open spec fn toast_command_text(title: Seq<char>, message: Seq<char>) -> Seq<char> {
    "New-BurntToastNotification -Text '"@ + powershell_escaped(title) + "','"@
        + powershell_escaped(message) + "'"@
}

pub fn toast_command(title: &str, message: &str) -> (r: String)
    ensures
        r@ == toast_command_text(title@, message@),
{
    let mut s = "New-BurntToastNotification -Text '".to_owned();
    let t = escape_powershell(title);
    s.append(t.as_str());
    s.append("','");
    let m = escape_powershell(message);
    s.append(m.as_str());
    s.append("'");
    s
}

/// Windows plays no reminder sound.
pub fn play_sound() -> (r: Result<(), String>)
    ensures
        r is Ok,
{
    Ok(())
}

} // verus!
