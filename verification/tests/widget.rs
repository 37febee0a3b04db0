use verandah_plugin_pomodoro::config::Config;
use verandah_plugin_pomodoro::socket::Command;
use verandah_plugin_pomodoro::timer::{Phase, Timer, Transition};
use verandah_plugin_pomodoro::widget::{
    display_state, poll, process_commands, sound_key, status_text, PULSE_INTERVAL_MS,
};

fn one_minute_timer(auto_start: bool) -> Timer {
    let config = Config {
        work: 1,
        short_break: 1,
        long_break: 1,
        auto_start_work: auto_start,
        auto_start_break: auto_start,
        ..Config::default()
    };
    Timer::new(&config)
}

#[test]
fn first_poll_records_the_time_without_a_tick() {
    let mut timer = one_minute_timer(false);
    timer.start();
    let outcome = poll(&mut timer, &vec![], None, false);
    assert!(outcome.tick_recorded);
    assert_eq!(outcome.transition, Transition::Unchanged);
    assert_eq!(outcome.sound, None);
    assert_eq!(timer.remaining_secs(), 60);
    assert_eq!(outcome.text, "01:00|R");
}

#[test]
fn poll_within_the_second_does_not_tick() {
    let mut timer = one_minute_timer(false);
    timer.start();
    let outcome = poll(&mut timer, &vec![], Some(0), false);
    assert!(!outcome.tick_recorded);
    assert_eq!(timer.remaining_secs(), 60);
    assert_eq!(outcome.display.elapsed_secs, 0);
}

#[test]
fn poll_ticks_once_however_many_seconds_passed() {
    let mut timer = one_minute_timer(false);
    timer.start();
    let outcome = poll(&mut timer, &vec![], Some(1), false);
    assert!(outcome.tick_recorded);
    assert_eq!(timer.remaining_secs(), 59);
    assert_eq!(outcome.text, "00:59|R");
    let outcome = poll(&mut timer, &vec![], Some(30), false);
    assert!(outcome.tick_recorded);
    assert_eq!(timer.remaining_secs(), 58);
    assert_eq!(outcome.display.remaining_formatted, "00:58");
    assert_eq!(outcome.display.elapsed_secs, 2);
    assert_eq!(outcome.display.duration_secs, 60);
    assert!(!outcome.display.at_phase_boundary);
}

#[test]
fn commands_are_applied_in_order_before_the_tick() {
    let mut timer = one_minute_timer(false);
    let commands = vec![Command::Start, Command::Skip, Command::Toggle];
    let outcome = poll(&mut timer, &commands, Some(1), false);
    assert_eq!(outcome.display.phase, Phase::ShortBreak);
    assert_eq!(outcome.display.iterations, 1);
    assert!(outcome.display.running);
    assert_eq!(outcome.display.elapsed_secs, 1);
    assert_eq!(outcome.transition, Transition::Unchanged);
    assert_eq!(outcome.text, "00:59|R");

    let mut timer = one_minute_timer(false);
    let commands = vec![Command::Toggle, Command::Skip, Command::Start];
    poll(&mut timer, &commands, Some(0), false);
    assert!(timer.is_running());
    let mut timer = one_minute_timer(false);
    let commands = vec![Command::Start, Command::Skip];
    poll(&mut timer, &commands, Some(0), false);
    assert!(!timer.is_running());
}

#[test]
fn transition_asks_for_the_sound_of_the_new_phase() {
    let mut timer = one_minute_timer(true);
    timer.start();
    for _ in 0..59 {
        let outcome = poll(&mut timer, &vec![], Some(1), false);
        assert_eq!(outcome.sound, None);
    }
    let outcome = poll(&mut timer, &vec![], Some(1), false);
    assert_eq!(outcome.transition, Transition::WorkComplete);
    assert_eq!(outcome.sound, Some(Phase::ShortBreak));
    assert_eq!(outcome.display.phase, Phase::ShortBreak);
    assert!(outcome.display.at_phase_boundary);
    assert_eq!(outcome.display.iterations, 1);
    for _ in 0..59 {
        poll(&mut timer, &vec![], Some(1), false);
    }
    let outcome = poll(&mut timer, &vec![], Some(1), false);
    assert_eq!(outcome.transition, Transition::BreakComplete);
    assert_eq!(outcome.sound, Some(Phase::Work));
}

#[test]
fn skip_by_command_is_silent() {
    let mut timer = one_minute_timer(false);
    let outcome = poll(&mut timer, &vec![Command::Skip], Some(1), false);
    assert_eq!(timer.phase(), Phase::ShortBreak);
    assert_eq!(outcome.transition, Transition::Unchanged);
    assert_eq!(outcome.sound, None);
}

#[test]
fn reset_is_observed_by_the_next_poll() {
    let mut timer = one_minute_timer(true);
    timer.skip();
    for _ in 0..20 {
        poll(&mut timer, &vec![], Some(1), false);
    }
    assert_eq!(timer.phase(), Phase::ShortBreak);
    assert_eq!(timer.elapsed_secs(), 20);
    let command = Command::parse("reset").unwrap();
    let outcome = poll(&mut timer, &vec![command], Some(1), false);
    assert_eq!(outcome.display.phase, Phase::Work);
    assert_eq!(outcome.display.elapsed_secs, 0);
    assert!(!outcome.display.running);
    assert_eq!(outcome.text, "01:00|P");
    assert_eq!(timer.phase(), Phase::Work);
    assert_eq!(timer.elapsed_secs(), 0);
}

#[test]
fn pulse_only_while_paused_midway() {
    let mut timer = one_minute_timer(false);
    assert!(!poll(&mut timer, &vec![], None, true).pulse);
    timer.start();
    assert!(!poll(&mut timer, &vec![], Some(1), true).pulse);
    let outcome = poll(&mut timer, &vec![Command::Stop], Some(1), true);
    assert!(outcome.pulse);
    assert_eq!(outcome.text, "00:59|P");
    assert!(!poll(&mut timer, &vec![], Some(1), false).pulse);
    assert_eq!(PULSE_INTERVAL_MS, 100);
}

#[test]
fn process_commands_applies_each() {
    let mut timer = one_minute_timer(false);
    process_commands(&mut timer, &vec![]);
    assert_eq!(timer.phase(), Phase::Work);
    assert!(!timer.is_running());
    let commands = vec![Command::Skip, Command::Skip, Command::Skip, Command::Start, Command::Reset];
    process_commands(&mut timer, &commands);
    assert_eq!(timer.phase(), Phase::Work);
    assert_eq!(timer.iterations(), 0);
    assert!(!timer.is_running());
    process_commands(&mut timer, &vec![Command::Skip; 8]);
    assert_eq!(timer.sessions_completed(), 1);
    assert_eq!(timer.iterations(), 0);
}

#[test]
fn display_state_of_a_fresh_timer() {
    let timer = Timer::new(&Config::default());
    let display = display_state(&timer);
    assert_eq!(display.phase, Phase::Work);
    assert!(!display.running);
    assert_eq!(display.remaining_formatted, "25:00");
    assert_eq!(display.elapsed_secs, 0);
    assert_eq!(display.duration_secs, 1500);
    assert!(display.at_phase_boundary);
    assert_eq!(display.iterations, 0);
    assert_eq!(display.sessions_completed, 0);
    assert_eq!(status_text(&timer), "25:00|P");
}

#[test]
fn sound_keys_of_the_phases() {
    assert_eq!(sound_key(Phase::Work), "work");
    assert_eq!(sound_key(Phase::ShortBreak), "short_break");
    assert_eq!(sound_key(Phase::LongBreak), "long_break");
}
