use verandah_plugin_pomodoro::sound::{
    extension, is_explicit_path, place, resolve_sound, sound_file_name, taken,
};

#[test]
fn test_resolve_empty_sound() {
    assert!(resolve_sound("").is_none());
}

#[test]
fn test_resolve_nonexistent_absolute() {
    assert!(resolve_sound("/nonexistent/path/sound.ogg").is_none());
}

#[test]
fn resolve_existing_absolute_path() {
    assert_eq!(resolve_sound("/"), Some("/".to_string()));
}

#[test]
fn resolve_nonexistent_relative_paths() {
    assert!(resolve_sound("./no-such-dir-3f9a/bell.wav").is_none());
    assert!(resolve_sound("../no-such-dir-3f9a/bell.wav").is_none());
}

#[test]
fn resolve_existing_relative_path() {
    assert_eq!(resolve_sound("./"), Some("./".to_string()));
    assert_eq!(resolve_sound("../"), Some("../".to_string()));
}

#[test]
fn resolve_unknown_theme_sound() {
    assert!(resolve_sound("no-such-sound-name-3f9a7c").is_none());
}

#[test]
fn explicit_paths_are_told_from_names() {
    assert!(is_explicit_path("/usr/share/sounds/bell.oga"));
    assert!(is_explicit_path("./bell.wav"));
    assert!(is_explicit_path("../bell.wav"));
    assert!(!is_explicit_path("bell"));
    assert!(!is_explicit_path(".bell"));
    assert!(!is_explicit_path("..bell"));
    assert!(!is_explicit_path("sounds/bell.wav"));
    assert!(!is_explicit_path(""));
}

#[test]
fn extensions_are_tried_in_order() {
    assert_eq!(extension(0), "oga");
    assert_eq!(extension(1), "ogg");
    assert_eq!(extension(2), "wav");
    assert_eq!(extension(3), "mp3");
    assert_eq!(sound_file_name("bell", 0), "bell.oga");
    assert_eq!(sound_file_name("alarm-clock-elapsed", 3), "alarm-clock-elapsed.mp3");
}

#[test]
fn theme_sound_is_found_below_the_data_home() {
    let Ok(dirs) = xdg::BaseDirectories::new() else {
        return;
    };
    // an entry of that name in the category directory of a theme
    let Ok(entry) =
        dirs.create_data_directory("sounds/pomodoro-probe-theme/stereo/pomodoro-probe-bell.wav")
    else {
        return;
    };
    let found = resolve_sound("pomodoro-probe-bell");
    assert_eq!(found, Some(entry.to_str().unwrap().to_string()));
    assert_eq!(resolve_sound("pomodoro-probe-gong"), None);
    assert_eq!(resolve_sound("pomodoro-probe-theme"), None);
}

#[test]
fn places_in_a_directory() {
    assert_eq!(place("/usr/share/sounds", "bell", 0), "/usr/share/sounds/bell.oga");
    assert_eq!(place("/usr/share/sounds/", "bell", 1), "/usr/share/sounds/bell.ogg");
    assert_eq!(place("theme/stereo", "alarm", 2), "theme/stereo/alarm.wav");
    assert_eq!(place("", "alarm", 3), "alarm.mp3");
}

#[test]
fn a_place_is_taken_only_if_something_is_there() {
    assert_eq!(taken("/tmp/bell.oga".to_string(), true), Some("/tmp/bell.oga".to_string()));
    assert_eq!(taken("/tmp/bell.oga".to_string(), false), None);
    assert_eq!(taken(String::new(), true), Some(String::new()));
}
