use verandah_plugin_pomodoro::config::Config;
use verandah_plugin_pomodoro::socket::Command;
use verandah_plugin_pomodoro::timer::{Phase, Timer};

#[test]
fn test_command_parse() {
    assert_eq!(Command::parse("toggle"), Some(Command::Toggle));
    assert_eq!(Command::parse("TOGGLE"), Some(Command::Toggle));
    assert_eq!(Command::parse("  start  "), Some(Command::Start));
    assert_eq!(Command::parse("stop"), Some(Command::Stop));
    assert_eq!(Command::parse("reset"), Some(Command::Reset));
    assert_eq!(Command::parse("skip"), Some(Command::Skip));
    assert_eq!(Command::parse("unknown"), None);
}

#[test]
fn test_command_apply_toggle() {
    let config = Config::default();
    let mut timer = Timer::new(&config);

    assert!(!timer.is_running());
    Command::Toggle.apply(&mut timer);
    assert!(timer.is_running());
    Command::Toggle.apply(&mut timer);
    assert!(!timer.is_running());
}

#[test]
fn test_command_apply_start_stop() {
    let config = Config::default();
    let mut timer = Timer::new(&config);

    assert!(!timer.is_running());
    Command::Start.apply(&mut timer);
    assert!(timer.is_running());
    Command::Stop.apply(&mut timer);
    assert!(!timer.is_running());
}

#[test]
fn parse_ignores_case_and_surrounding_whitespace() {
    assert_eq!(Command::parse("  ToGgLe "), Command::parse("toggle"));
    assert_eq!(Command::parse("  ToGgLe "), Some(Command::Toggle));
    assert_eq!(Command::parse("\tSKIP\r\n"), Some(Command::Skip));
    assert_eq!(Command::parse("\u{a0}Reset\u{3000}"), Some(Command::Reset));
    assert_eq!(Command::parse("stop\n"), Some(Command::Stop));
}

#[test]
fn parse_rejects_what_is_not_a_command() {
    assert_eq!(Command::parse(""), None);
    assert_eq!(Command::parse("   "), None);
    assert_eq!(Command::parse("tog gle"), None);
    assert_eq!(Command::parse("toggle now"), None);
    assert_eq!(Command::parse("toggles"), None);
    assert_eq!(Command::parse("pause"), None);
    assert_eq!(Command::parse("sto"), None);
    assert_eq!(Command::parse("ſkip"), None);
    assert_eq!(Command::parse("rëset"), None);
}

#[test]
fn apply_reset_and_skip() {
    let mut timer = Timer::new(&Config::default());
    Command::Skip.apply(&mut timer);
    assert_eq!(timer.phase(), Phase::ShortBreak);
    assert_eq!(timer.iterations(), 1);
    Command::Start.apply(&mut timer);
    timer.tick();
    Command::Reset.apply(&mut timer);
    assert_eq!(timer.phase(), Phase::Work);
    assert_eq!(timer.elapsed_secs(), 0);
    assert_eq!(timer.iterations(), 0);
    assert!(!timer.is_running());
}
