//! The settings file `~/.todo/config.toml`: a few `key = value` lines.
use vstd::prelude::*;
use crate::text::{
    chars_of, is_white_space, lowered, str_equal, string_from_chars, to_lowercase,
    trim_chars, trim_seq, trim_str,
};

verus! {

/// The operating system the program runs on; it decides the default sound.
#[derive(Debug, Clone, Copy, PartialEq, Eq, Structural)]
pub enum Platform {
    Linux,
    MacOs,
    Windows,
    Other,
}

/// Whether reminders play a sound, and which file.
#[derive(Debug, Clone)]
pub struct Config {
    pub enable_sound: bool,
    pub sound_file: String,
}

impl View for Config {
    type V = (bool, Seq<char>);

    open spec fn view(&self) -> (bool, Seq<char>) {
        (self.enable_sound, self.sound_file@)
    }
}

/// The sound file used when the settings name none.
pub open spec fn default_sound_text(platform: Platform) -> Seq<char> {
    match platform {
        Platform::Linux => "/usr/share/sounds/freedesktop/stereo/message.oga"@,
        Platform::MacOs => "/System/Library/Sounds/Ping.aiff"@,
        _ => ""@,
    }
}

/// Whether sound is on when the settings do not say: off on Windows only.
pub open spec fn default_enable_sound(platform: Platform) -> bool {
    platform != Platform::Windows
}

pub open spec fn default_config(platform: Platform) -> (bool, Seq<char>) {
    (default_enable_sound(platform), default_sound_text(platform))
}

/// The index of the first `'\n'` in `s`, or its length when there is none.
pub open spec fn newline_at(s: Seq<char>) -> int
    decreases s.len(),
{
    if s.len() == 0 {
        0
    } else if s[0] == '\n' {
        0
    } else {
        1 + newline_at(s.drop_first())
    }
}

pub proof fn lemma_newline_at(s: Seq<char>)
    ensures
        0 <= newline_at(s) <= s.len(),
        forall|k: int| 0 <= k < newline_at(s) ==> s[k] != '\n',
        newline_at(s) < s.len() ==> s[newline_at(s)] == '\n',
    decreases s.len(),
{
    if s.len() > 0 && s[0] != '\n' {
        lemma_newline_at(s.drop_first());
        assert forall|k: int| 0 <= k < newline_at(s) implies s[k] != '\n' by {
            if k > 0 {
                assert(s[k] == s.drop_first()[k - 1]);
            }
        }
    }
}

/// The text of a boolean setting read as `parse_bool` reads it.
pub open spec fn bool_setting(value: Seq<char>) -> Option<bool> {
    let v = lowered(trim_seq(value));
    if v == "true"@ {
        Some(true)
    } else if v == "false"@ {
        Some(false)
    } else {
        None
    }
}

/// The text of a string setting read as `parse_string` reads it: the text
/// between double quotes, or the bare text; an opening quote without a
/// closing one is refused.
pub open spec fn string_setting(value: Seq<char>) -> Option<Seq<char>> {
    let t = trim_seq(value);
    if t.len() >= 2 && t[0] == '"' && t.last() == '"' {
        Some(t.subrange(1, t.len() - 1))
    } else if t.len() >= 1 && t[0] == '"' {
        None
    } else {
        Some(t)
    }
}

/// The index of the first `'='` in `s`, if any.
pub open spec fn equals_at(s: Seq<char>) -> Option<int> {
    if exists|k: int| 0 <= k < s.len() && s[k] == '=' {
        Some(choose|k: int| 0 <= k < s.len() && s[k] == '=' && forall|j: int| 0 <= j < k ==> s[j] != '=')
    } else {
        None
    }
}

/// What one line of the settings file does to the settings: blank lines,
/// comments (`#` or `;`) and lines without `=` change nothing; a known key
/// with a readable value sets that setting.
pub open spec fn apply_setting_line(config: (bool, Seq<char>), line: Seq<char>) -> (bool, Seq<char>) {
    let t = trim_seq(line);
    if t.len() == 0 || t[0] == '#' || t[0] == ';' {
        config
    } else {
        match equals_at(t) {
            None => config,
            Some(k) => {
                let key = trim_seq(t.subrange(0, k));
                let value = trim_seq(t.subrange(k + 1, t.len() as int));
                if key == "enable_sound"@ {
                    match bool_setting(value) {
                        Some(b) => (b, config.1),
                        None => config,
                    }
                } else if key == "sound_file"@ {
                    match string_setting(value) {
                        Some(f) => (config.0, f),
                        None => config,
                    }
                } else {
                    config
                }
            },
        }
    }
}

/// The settings after reading the lines of `s` (split at `'\n'`) in order,
/// starting from `config`.
pub open spec fn settings_after(config: (bool, Seq<char>), s: Seq<char>) -> (bool, Seq<char>)
    decreases s.len(),
{
    if s.len() == 0 {
        config
    } else {
        let i = newline_at(s);
        proof {
            lemma_newline_at(s);
        }
        let next = apply_setting_line(config, s.subrange(0, i));
        if i < s.len() {
            settings_after(next, s.subrange(i + 1, s.len() as int))
        } else {
            next
        }
    }
}

impl Config {
    /// The settings in force when the file says nothing.
    pub fn default_for(platform: Platform) -> (r: Config)
        ensures
            r@ == default_config(platform),
    {
        match platform {
            Platform::Linux => Config {
                enable_sound: true,
                sound_file: "/usr/share/sounds/freedesktop/stereo/message.oga".to_owned(),
            },
            Platform::MacOs => Config {
                enable_sound: true,
                sound_file: "/System/Library/Sounds/Ping.aiff".to_owned(),
            },
            Platform::Windows => Config { enable_sound: false, sound_file: "".to_owned() },
            Platform::Other => Config { enable_sound: true, sound_file: "".to_owned() },
        }
    }
}

fn parse_bool(value: &str) -> (r: Option<bool>)
    ensures
        r == bool_setting(value@),
{
    let trimmed = string_from_chars(&trim_str(value));
    let lower = to_lowercase(trimmed.as_str());
    if str_equal(lower.as_str(), "true") {
        Some(true)
    } else if str_equal(lower.as_str(), "false") {
        Some(false)
    } else {
        None
    }
}

fn parse_string(value: &str) -> (r: Option<String>)
    ensures
        match r {
            Some(s) => string_setting(value@) == Some(s@),
            None => string_setting(value@) is None,
        },
{
    let t = trim_str(value);
    let n = t.len();
    if n >= 2 && t[0] == '"' && t[n - 1] == '"' {
        let mut inner: Vec<char> = Vec::new();
        let mut i: usize = 1;
        while i < n - 1
            invariant
                n == t.len(),
                n >= 2,
                1 <= i <= n - 1,
                inner@ == t@.subrange(1, i as int),
            decreases n - 1 - i,
        {
            inner.push(t[i]);
            i = i + 1;
            assert(inner@ =~= t@.subrange(1, i as int));
        }
        Some(string_from_chars(&inner))
    } else if n >= 1 && t[0] == '"' {
        None
    } else {
        Some(string_from_chars(&t))
    }
}

fn copy_range(s: &Vec<char>, from: usize, to: usize) -> (r: Vec<char>)
    requires
        from <= to <= s.len(),
    ensures
        r@ == s@.subrange(from as int, to as int),
{
    let mut r: Vec<char> = Vec::new();
    let mut i: usize = from;
    while i < to
        invariant
            from <= i <= to <= s.len(),
            r@ == s@.subrange(from as int, i as int),
        decreases to - i,
    {
        r.push(s[i]);
        i = i + 1;
        assert(r@ =~= s@.subrange(from as int, i as int));
    }
    r
}

fn apply_line(config: &mut Config, line: &Vec<char>)
    ensures
        final(config)@ == apply_setting_line(old(config)@, line@),
{
    let t = trim_chars(line);
    let n = t.len();
    if n == 0 || t[0] == '#' || t[0] == ';' {
        return;
    }
    let mut k: usize = 0;
    while k < n && t[k] != '='
        invariant
            n == t.len(),
            k <= n,
            forall|j: int| 0 <= j < k ==> t@[j] != '=',
        decreases n - k,
    {
        k = k + 1;
    }
    if k == n {
        assert(!(exists|j: int| 0 <= j < t@.len() && t@[j] == '='));
        return;
    }
    proof {
        let c = choose|j: int| 0 <= j < t@.len() && t@[j] == '=' && forall|i: int| 0 <= i < j ==> t@[i] != '=';
        assert(t@[k as int] == '=');
        assert(c == k) by {
            if c < k {
            } else if c > k {
            }
        }
    }
    let key = string_from_chars(&trim_chars(&copy_range(&t, 0, k)));
    let value = string_from_chars(&copy_range(&t, k + 1, n));
    proof {
        reveal_strlit("enable_sound");
        reveal_strlit("sound_file");
    }
    if str_equal(key.as_str(), "enable_sound") {
        match parse_bool(value.as_str()) {
            Some(b) => {
                config.enable_sound = b;
            },
            None => {},
        }
    } else if str_equal(key.as_str(), "sound_file") {
        match parse_string(value.as_str()) {
            Some(f) => {
                config.sound_file = f;
            },
            None => {},
        }
    }
    proof {
        crate::text::lemma_trim_idempotent(t@.subrange(k + 1, n as int));
    }
}

/// Reads the settings text, starting from the platform's defaults.
pub fn parse_config(input: &str, platform: Platform) -> (r: Config)
    ensures
        r@ == settings_after(default_config(platform), input@),
{
    let s = chars_of(input);
    let n = s.len();
    let mut config = Config::default_for(platform);
    let mut line: Vec<char> = Vec::new();
    let mut start: usize = 0;
    let mut i: usize = 0;
    assert(s@.subrange(0, n as int) =~= s@);
    while i < n
        invariant
            n == s.len(),
            s@ == input@,
            start <= i <= n,
            line@ == s@.subrange(start as int, i as int),
            forall|k: int| start <= k < i ==> s@[k] != '\n',
            settings_after(config@, s@.subrange(start as int, n as int)) == settings_after(
                default_config(platform),
                input@,
            ),
        decreases n - i,
    {
        if s[i] == '\n' {
            proof {
                let rest = s@.subrange(start as int, n as int);
                lemma_newline_at(rest);
                let j = (i - start) as int;
                assert(rest[j] == '\n');
                assert(newline_at(rest) == j) by {
                    if newline_at(rest) < j {
                        assert(rest[newline_at(rest)] == s@[start + newline_at(rest)]);
                    }
                }
                assert(rest.subrange(0, j) =~= line@);
                assert(rest.subrange(j + 1, rest.len() as int) =~= s@.subrange(i + 1, n as int));
            }
            apply_line(&mut config, &line);
            line = Vec::new();
            start = i + 1;
        } else {
            line.push(s[i]);
        }
        i = i + 1;
        assert(line@ =~= s@.subrange(start as int, i as int));
    }
    if start < n {
        proof {
            let rest = s@.subrange(start as int, n as int);
            lemma_newline_at(rest);
            assert(newline_at(rest) == rest.len()) by {
                if newline_at(rest) < rest.len() {
                    assert(rest[newline_at(rest)] == s@[start + newline_at(rest)]);
                }
            }
            assert(rest.subrange(0, rest.len() as int) =~= line@);
        }
        apply_line(&mut config, &line);
    } else {
        assert(s@.subrange(start as int, n as int) =~= Seq::<char>::empty());
    }
    config
}

} // verus!
