//! macOS: an AppleScript `display notification` run by `osascript`, and
//! `afplay` for sounds.
use vstd::prelude::*;
use vstd::string::StringExecFns;
use crate::text::{chars_of, push_char};

verus! {

/// How one character is written inside an AppleScript string literal.
pub open spec fn applescript_char(c: char) -> Seq<char> {
    if c == '\\' {
        seq!['\\', '\\']
    } else if c == '"' {
        seq!['\\', '"']
    } else if c == '\n' {
        seq!['\\', 'n']
    } else if c == '\r' {
        Seq::empty()
    } else {
        seq![c]
    }
}

/// A text escaped for an AppleScript string literal: backslashes and quotes
/// escaped, line feeds written `\n`, carriage returns dropped.
pub open spec fn applescript_escaped(s: Seq<char>) -> Seq<char>
    decreases s.len(),
{
    if s.len() == 0 {
        Seq::empty()
    } else {
        applescript_escaped(s.drop_last()) + applescript_char(s.last())
    }
}

/// An escaped text holds no line break, so the script stays on one line.
pub proof fn lemma_applescript_one_line(s: Seq<char>)
    ensures
        forall|k: int|
            0 <= k < applescript_escaped(s).len() ==> #[trigger] applescript_escaped(s)[k] != '\n'
                && applescript_escaped(s)[k] != '\r',
    decreases s.len(),
{
    if s.len() > 0 {
        let d = applescript_escaped(s.drop_last());
        lemma_applescript_one_line(s.drop_last());
        assert forall|k: int| 0 <= k < applescript_escaped(s).len() implies #[trigger] applescript_escaped(s)[k]
            != '\n' && applescript_escaped(s)[k] != '\r' by {
            if k < d.len() {
                assert(applescript_escaped(s)[k] == d[k]);
            } else {
                assert(applescript_escaped(s)[k] == applescript_char(s.last())[k - d.len()]);
            }
        }
    }
}

pub fn escape_applescript(input: &str) -> (r: String)
    ensures
        r@ == applescript_escaped(input@),
{
    let cs = chars_of(input);
    let mut escaped = String::new();
    let mut i: usize = 0;
    while i < cs.len()
        invariant
            i <= cs.len(),
            escaped@ == applescript_escaped(cs@.take(i as int)),
        decreases cs.len() - i,
    {
        let ch = cs[i];
        let ghost before = escaped@;
        if ch == '\\' {
            push_char(&mut escaped, '\\');
            push_char(&mut escaped, '\\');
        } else if ch == '"' {
            push_char(&mut escaped, '\\');
            push_char(&mut escaped, '"');
        } else if ch == '\n' {
            push_char(&mut escaped, '\\');
            push_char(&mut escaped, 'n');
        } else if ch == '\r' {
        } else {
            push_char(&mut escaped, ch);
        }
        assert(cs@.take(i + 1).drop_last() =~= cs@.take(i as int));
        assert(escaped@ =~= before + applescript_char(ch));
        i = i + 1;
    }
    assert(cs@.take(cs@.len() as int) =~= cs@);
    escaped
}

/// The AppleScript that shows a notification.
pub open spec fn notification_script_text(title: Seq<char>, message: Seq<char>) -> Seq<char> {
    "display notification \""@ + applescript_escaped(message) + "\" with title \""@
        + applescript_escaped(title) + "\""@
}

pub fn notification_script(title: &str, message: &str) -> (r: String)
    ensures
        r@ == notification_script_text(title@, message@),
{
    let mut s = "display notification \"".to_owned();
    let m = escape_applescript(message);
    s.append(m.as_str());
    s.append("\" with title \"");
    let t = escape_applescript(title);
    s.append(t.as_str());
    s.append("\"");
    s
}

} // verus!
