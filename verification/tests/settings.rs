use todo::config::{parse_config, Config, Platform};

#[test]
fn parse_config_defaults() {
    let config = parse_config("", Platform::Linux);
    assert_eq!(config.enable_sound, true);
    assert_eq!(config.sound_file, "/usr/share/sounds/freedesktop/stereo/message.oga");
}

#[test]
fn parse_config_values() {
    let config = parse_config(
        "enable_sound = false\n\
            sound_file = \"/tmp/test.oga\"\n",
        Platform::Linux,
    );
    assert!(!config.enable_sound);
    assert_eq!(config.sound_file, "/tmp/test.oga");
}

#[test]
fn defaults_follow_the_platform() {
    let mac = Config::default_for(Platform::MacOs);
    assert!(mac.enable_sound);
    assert_eq!(mac.sound_file, "/System/Library/Sounds/Ping.aiff");
    let windows = Config::default_for(Platform::Windows);
    assert!(!windows.enable_sound);
    assert_eq!(windows.sound_file, "");
    let other = Config::default_for(Platform::Other);
    assert!(other.enable_sound);
    assert_eq!(other.sound_file, "");
    let empty = parse_config("", Platform::Windows);
    assert!(!empty.enable_sound);
}

#[test]
fn comments_blank_lines_and_unknown_keys_change_nothing() {
    let config = parse_config(
        "# enable_sound = false\n\n; sound_file = /x\nvolume = 3\nno equals sign\n",
        Platform::Linux,
    );
    assert!(config.enable_sound);
    assert_eq!(config.sound_file, "/usr/share/sounds/freedesktop/stereo/message.oga");
}

#[test]
fn booleans_ignore_case_and_bad_values_keep_the_default() {
    let upper = parse_config("enable_sound = FALSE", Platform::Linux);
    assert!(!upper.enable_sound);
    let bad = parse_config("enable_sound = nope", Platform::Linux);
    assert!(bad.enable_sound);
    let on = parse_config("enable_sound=True", Platform::Windows);
    assert!(on.enable_sound);
}

#[test]
fn string_values_bare_quoted_and_unterminated() {
    let bare = parse_config("sound_file =   /a/b.oga  ", Platform::Linux);
    assert_eq!(bare.sound_file, "/a/b.oga");
    let quoted = parse_config("sound_file = \"with = sign\"", Platform::Linux);
    assert_eq!(quoted.sound_file, "with = sign");
    let open = parse_config("sound_file = \"/missing/end", Platform::Linux);
    assert_eq!(open.sound_file, "/usr/share/sounds/freedesktop/stereo/message.oga");
    let empty_quotes = parse_config("sound_file = \"\"", Platform::Linux);
    assert_eq!(empty_quotes.sound_file, "");
}

#[test]
fn a_later_line_wins() {
    let config = parse_config(
        "sound_file = /first.oga\nsound_file = /second.oga\nenable_sound = false\nenable_sound = true\n",
        Platform::Linux,
    );
    assert_eq!(config.sound_file, "/second.oga");
    assert!(config.enable_sound);
}
