use verandah_plugin_pomodoro::config::Config;
use verandah_plugin_pomodoro::timer::{format_clock, Phase, Timer, Transition};

fn test_config() -> Config {
    Config {
        work: 1, // 1 minute for faster tests
        short_break: 1,
        long_break: 1,
        auto_start_work: false,
        auto_start_break: false,
        ..Config::default()
    }
}

#[test]
fn test_new_timer() {
    let timer = Timer::new(&test_config());
    assert_eq!(timer.phase(), Phase::Work);
    assert!(!timer.is_running());
    assert_eq!(timer.iterations(), 0);
    assert_eq!(timer.sessions_completed(), 0);
}

#[test]
fn test_toggle() {
    let mut timer = Timer::new(&test_config());
    assert!(!timer.is_running());
    timer.toggle();
    assert!(timer.is_running());
    timer.toggle();
    assert!(!timer.is_running());
}

#[test]
fn test_remaining_formatted() {
    let config = Config {
        work: 25,
        ..Config::default()
    };
    let timer = Timer::new(&config);
    assert_eq!(timer.remaining_formatted(), "25:00");
}

#[test]
fn test_tick_advances_time() {
    let mut timer = Timer::new(&test_config());
    timer.start();
    let remaining_before = timer.remaining_secs();
    timer.tick();
    assert_eq!(timer.remaining_secs(), remaining_before - 1);
}

#[test]
fn test_work_to_short_break_transition() {
    let mut timer = Timer::new(&test_config());
    timer.start();

    // Run through work phase (60 seconds)
    for _ in 0..60 {
        timer.tick();
    }

    assert_eq!(timer.phase(), Phase::ShortBreak);
    assert_eq!(timer.iterations(), 1);
    assert!(!timer.is_running()); // auto_start_break is false
}

#[test]
fn test_full_pomodoro_cycle() {
    let config = Config {
        work: 1,
        short_break: 1,
        long_break: 1,
        auto_start_work: true,
        auto_start_break: true,
        ..Config::default()
    };
    let mut timer = Timer::new(&config);
    timer.start();

    // Run through 4 work/break cycles + long break
    // Each cycle: 60s work + 60s break = 120s
    // Total: 4 * 60s work + 3 * 60s short break + 60s long break = 480s
    for _ in 0..480 {
        timer.tick();
    }

    assert_eq!(timer.sessions_completed(), 1);
    assert_eq!(timer.iterations(), 0);
    assert_eq!(timer.phase(), Phase::Work);
}

#[test]
fn test_reset() {
    let config = Config {
        work: 1,
        auto_start_break: true,
        ..Config::default()
    };
    let mut timer = Timer::new(&config);
    timer.start();

    // Advance past first work phase
    for _ in 0..60 {
        timer.tick();
    }

    assert_eq!(timer.phase(), Phase::ShortBreak);
    assert_eq!(timer.iterations(), 1);

    timer.reset();

    assert_eq!(timer.phase(), Phase::Work);
    assert_eq!(timer.iterations(), 0);
    assert!(!timer.is_running());
}

#[test]
fn test_skip() {
    let mut timer = Timer::new(&test_config());
    assert_eq!(timer.phase(), Phase::Work);

    timer.skip();
    assert_eq!(timer.phase(), Phase::ShortBreak);
    assert_eq!(timer.iterations(), 1);

    timer.skip();
    assert_eq!(timer.phase(), Phase::Work);
}

#[test]
fn tick_while_paused_changes_nothing() {
    let mut timer = Timer::new(&test_config());
    assert_eq!(timer.tick(), Transition::Unchanged);
    assert_eq!(timer.remaining_secs(), 60);
    assert_eq!(timer.elapsed_secs(), 0);
    assert!(timer.at_phase_boundary());
}

#[test]
fn tick_counts_down_to_the_transition() {
    let mut timer = Timer::new(&test_config());
    timer.start();
    for expected in (1..60).rev() {
        assert_eq!(timer.tick(), Transition::Unchanged);
        assert_eq!(timer.remaining_secs(), expected);
        assert_eq!(timer.phase(), Phase::Work);
        assert!(!timer.at_phase_boundary());
    }
    assert_eq!(timer.tick(), Transition::WorkComplete);
    assert_eq!(timer.phase(), Phase::ShortBreak);
    assert_eq!(timer.remaining_secs(), 60);
    assert_eq!(timer.current_duration(), 60);
    assert!(timer.at_phase_boundary());
}

#[test]
fn break_completion_is_reported() {
    let mut config = test_config();
    config.auto_start_break = true;
    config.short_break = 2;
    let mut timer = Timer::new(&config);
    assert_eq!(timer.skip(), Transition::WorkComplete);
    assert!(timer.is_running());
    assert_eq!(timer.remaining_secs(), 120);
    for _ in 0..119 {
        assert_eq!(timer.tick(), Transition::Unchanged);
    }
    assert_eq!(timer.tick(), Transition::BreakComplete);
    assert_eq!(timer.phase(), Phase::Work);
    assert!(!timer.is_running()); // auto_start_work is false
}

#[test]
fn reset_keeps_sessions_completed() {
    let mut timer = Timer::new(&test_config());
    for _ in 0..8 {
        timer.skip();
    }
    assert_eq!(timer.sessions_completed(), 1);
    timer.skip();
    timer.start();
    timer.tick();
    timer.reset();
    assert_eq!(timer.phase(), Phase::Work);
    assert_eq!(timer.elapsed_secs(), 0);
    assert_eq!(timer.iterations(), 0);
    assert!(!timer.is_running());
    assert_eq!(timer.sessions_completed(), 1);
}

#[test]
fn fourth_work_phase_leads_to_long_break() {
    let mut timer = Timer::new(&test_config());
    for completed in 1..=3u8 {
        assert_eq!(timer.skip(), Transition::WorkComplete);
        assert_eq!(timer.phase(), Phase::ShortBreak);
        assert_eq!(timer.iterations(), completed);
        assert_eq!(timer.skip(), Transition::BreakComplete);
        assert_eq!(timer.phase(), Phase::Work);
    }
    assert_eq!(timer.skip(), Transition::WorkComplete);
    assert_eq!(timer.phase(), Phase::LongBreak);
    assert_eq!(timer.iterations(), 4);
    assert_eq!(timer.sessions_completed(), 0);
    assert_eq!(timer.skip(), Transition::BreakComplete);
    assert_eq!(timer.phase(), Phase::Work);
    assert_eq!(timer.iterations(), 0);
    assert_eq!(timer.sessions_completed(), 1);
}

#[test]
fn toggle_flips_and_start_pause_are_idempotent() {
    let mut timer = Timer::new(&test_config());
    timer.toggle();
    assert!(timer.is_running());
    timer.start();
    timer.start();
    assert!(timer.is_running());
    timer.pause();
    timer.pause();
    assert!(!timer.is_running());
    timer.toggle();
    timer.toggle();
    assert!(!timer.is_running());
}

#[test]
fn skip_ignores_running_and_elapsed() {
    let mut paused = Timer::new(&test_config());
    let mut running = Timer::new(&test_config());
    running.start();
    for _ in 0..30 {
        running.tick();
    }
    assert_eq!(paused.skip(), Transition::WorkComplete);
    assert_eq!(running.skip(), Transition::WorkComplete);
    assert_eq!(paused.phase(), running.phase());
    assert_eq!(paused.iterations(), running.iterations());
    assert_eq!(running.elapsed_secs(), 0);
    assert_eq!(running.remaining_secs(), 60);
    assert!(!running.is_running());
}

#[test]
fn clock_shows_hours_from_one_hour_on() {
    assert_eq!(format_clock(0), "00:00");
    assert_eq!(format_clock(59), "00:59");
    assert_eq!(format_clock(60), "01:00");
    assert_eq!(format_clock(3599), "59:59");
    assert_eq!(format_clock(3600), "1:00:00");
    assert_eq!(format_clock(3661), "1:01:01");
    assert_eq!(format_clock(36_000 + 23 * 60 + 45), "10:23:45");
    assert_eq!(format_clock(u64::MAX), "5124095576030431:00:15");
}

#[test]
fn zero_duration_phase_ends_at_the_first_tick() {
    let mut config = test_config();
    config.work = 0;
    let mut timer = Timer::new(&config);
    assert_eq!(timer.remaining_secs(), 0);
    timer.start();
    assert_eq!(timer.tick(), Transition::WorkComplete);
    assert_eq!(timer.phase(), Phase::ShortBreak);
}

#[test]
fn clone_keeps_the_state() {
    let mut timer = Timer::new(&test_config());
    timer.start();
    timer.tick();
    let copy = timer.clone();
    assert_eq!(copy.phase(), timer.phase());
    assert_eq!(copy.elapsed_secs(), 1);
    assert!(copy.is_running());
}

#[test]
fn session_takes_as_many_ticks_as_its_phases_have_seconds() {
    let config = Config {
        work: 2,
        short_break: 1,
        long_break: 3,
        auto_start_work: true,
        auto_start_break: true,
        ..Config::default()
    };
    let mut timer = Timer::new(&config);
    timer.start();
    let ticks = 4 * 120 + 3 * 60 + 180;
    for _ in 0..ticks - 1 {
        timer.tick();
    }
    assert_eq!(timer.phase(), Phase::LongBreak);
    assert_eq!(timer.sessions_completed(), 0);
    assert_eq!(timer.remaining_secs(), 1);
    assert_eq!(timer.tick(), Transition::BreakComplete);
    assert_eq!(timer.phase(), Phase::Work);
    assert_eq!(timer.sessions_completed(), 1);
    assert_eq!(timer.iterations(), 0);
    assert_eq!(timer.elapsed_secs(), 0);
    assert!(timer.is_running());
}
