use clockr::notify::FrameInput;
use clockr::timer::ClockrApp;
use clockr::timer::TimerKind;

#[test]
fn new_state_is_idle_with_defaults() {
    let app = ClockrApp::new();
    assert!(!app.timer_active);
    assert!(!app.timer_just_finished);
    assert_eq!(app.completed_timer_count, 0);
    assert_eq!(app.timer_duration_ms, 60_000);
    assert_eq!(app.get_length(TimerKind::Work), 25);
    assert_eq!(app.get_length(TimerKind::Break), 5);
    assert_eq!(app.get_length(TimerKind::Long), 15);
}

#[test]
fn start_shows_full_duration_and_is_not_finished() {
    let mut app = ClockrApp::new();
    app.start_timer(1_000, 125, TimerKind::Work);
    assert_eq!(app.remaining_time(1_000), 125_000);
    assert!(!app.is_timer_finished(1_000));

    app.start_timer(5_000, 1, TimerKind::Long);
    assert_eq!(app.remaining_time(5_000), 1_000);
    assert!(!app.is_timer_finished(5_000));
}

#[test]
fn countdown_reaches_zero_and_stays_finished() {
    let mut app = ClockrApp::new();
    app.start_timer(0, 10, TimerKind::Break);
    assert_eq!(app.remaining_time(4_000), 6_000);
    assert!(!app.is_timer_finished(4_000));
    assert_eq!(app.remaining_time(10_000), 0);
    assert!(app.is_timer_finished(10_000));
    // The finished state persists on every later frame until a new
    // start or a stop.
    assert_eq!(app.remaining_time(10_001), 0);
    assert!(app.is_timer_finished(10_001));
    assert_eq!(app.remaining_time(1_000_000), 0);
    assert!(app.is_timer_finished(1_000_000));
    app.stop();
    assert!(!app.is_timer_finished(1_000_000));
}

#[test]
fn stop_discards_progress_and_shows_configured_duration() {
    let mut app = ClockrApp::new();
    app.start_timer(0, 300, TimerKind::Work);
    assert_eq!(app.remaining_time(120_000), 180_000);
    app.stop();
    // Not the partial 180s: the full configured 300s.
    assert_eq!(app.remaining_time(120_000), 300_000);
    assert!(!app.timer_active);
    assert!(!app.is_timer_finished(120_000));
}

#[test]
fn idle_timer_reports_stored_duration_not_zero() {
    let app = ClockrApp::new();
    assert_eq!(app.remaining_time(0), 60_000);
    assert_eq!(app.remaining_time(999_999_999), 60_000);
    assert!(!app.is_timer_finished(999_999_999));
}

#[test]
fn clock_before_start_counts_no_elapsed_time() {
    let mut app = ClockrApp::new();
    app.start_timer(50_000, 60, TimerKind::Work);
    assert_eq!(app.remaining_time(40_000), 60_000);
    assert!(!app.is_timer_finished(40_000));
}

#[test]
fn set_length_and_get_length_round_trip_at_range_edges() {
    let mut app = ClockrApp::new();
    app.set_length(TimerKind::Work, 1);
    app.set_length(TimerKind::Break, 50);
    app.set_length(TimerKind::Long, 30);
    assert_eq!(app.get_length(TimerKind::Work), 1);
    assert_eq!(app.get_length(TimerKind::Break), 50);
    assert_eq!(app.get_length(TimerKind::Long), 30);
}

#[test]
fn reset_restores_factory_defaults_after_edits() {
    let mut app = ClockrApp::new();
    app.set_length(TimerKind::Work, 42);
    app.set_length(TimerKind::Break, 13);
    app.set_length(TimerKind::Long, 50);
    app.reset_to_default();
    assert_eq!(app.get_length(TimerKind::Work), 25);
    assert_eq!(app.get_length(TimerKind::Break), 5);
    assert_eq!(app.get_length(TimerKind::Long), 15);
}

#[test]
fn set_length_leaves_running_timer_untouched() {
    let mut app = ClockrApp::new();
    app.start_timer(0, 25 * 60, TimerKind::Work);
    app.set_length(TimerKind::Work, 10);
    // The countdown copied its duration by value at start time.
    assert_eq!(app.remaining_time(0), 25 * 60 * 1000);
}

#[test]
fn should_repaint_tracks_activity() {
    let mut app = ClockrApp::new();
    assert!(!app.should_repaint());
    app.start_timer(0, 60, TimerKind::Break);
    assert!(app.should_repaint());
    app.stop();
    assert!(!app.should_repaint());
}

#[test]
fn work_completion_counts_one_session_across_many_frames() {
    let mut app = ClockrApp::new();
    app.start_timer(0, 1, TimerKind::Work);
    assert_eq!(app.completed_timer_count, 0);
    let fired = app.notifier_step(1_500);
    assert!(fired);
    assert_eq!(app.completed_timer_count, 1);
    // Many more frames observe the same finished countdown.
    for frame in 0..10u64 {
        let fired_again = app.notifier_step(2_000 + frame * 16);
        assert!(!fired_again);
        assert_eq!(app.completed_timer_count, 1);
    }
}

#[test]
fn break_and_long_completions_never_count_sessions() {
    let mut app = ClockrApp::new();
    app.start_timer(0, 1, TimerKind::Break);
    let fired = app.notifier_step(2_000);
    assert!(fired);
    assert_eq!(app.completed_timer_count, 0);

    app.start_timer(3_000, 1, TimerKind::Long);
    let fired_long = app.notifier_step(5_000);
    assert!(fired_long);
    assert_eq!(app.completed_timer_count, 0);
}

#[test]
fn notifier_re_arms_for_a_new_countdown() {
    let mut app = ClockrApp::new();
    app.start_timer(0, 1, TimerKind::Work);
    assert!(app.notifier_step(1_500));
    assert_eq!(app.completed_timer_count, 1);
    // A new start clears the latch; the next completion fires again.
    app.start_timer(2_000, 1, TimerKind::Work);
    assert!(!app.notifier_step(2_500));
    assert!(app.notifier_step(3_500));
    assert_eq!(app.completed_timer_count, 2);
}

#[test]
fn one_second_work_scenario_fires_cue_and_counts_once() {
    let mut app = ClockrApp::new();
    // Start a one-second work timer on a test clock at zero.
    app.start_timer(0, 1, TimerKind::Work);
    // Advance the clock by 1.5 seconds and evaluate the notifier.
    let cue = app.notifier_step(1_500);
    assert!(cue);
    assert_eq!(app.completed_timer_count, 1);
    // Evaluate again without restarting: no cue, counter unchanged.
    let cue_again = app.notifier_step(1_500);
    assert!(!cue_again);
    assert_eq!(app.completed_timer_count, 1);
}

#[test]
fn key_press_toggles_between_start_and_stop() {
    let mut app = ClockrApp::new();
    app.handle_key(0, TimerKind::Work);
    assert!(app.timer_active);
    assert_eq!(app.remaining_time(0), 25 * 60 * 1000);
    // Pressing a key while anything runs stops it, whatever the kind.
    app.handle_key(1_000, TimerKind::Break);
    assert!(!app.timer_active);
    // Pressing while idle starts the configured length for that kind.
    app.handle_key(2_000, TimerKind::Break);
    assert!(app.timer_active);
    assert_eq!(app.remaining_time(2_000), 5 * 60 * 1000);
}

#[test]
fn button_click_always_restarts() {
    let mut app = ClockrApp::new();
    app.handle_start_click(0, TimerKind::Work);
    assert!(app.timer_active);
    // A second click restarts from the full duration instead of
    // toggling the timer off.
    app.handle_start_click(60_000, TimerKind::Work);
    assert!(app.timer_active);
    assert_eq!(app.remaining_time(60_000), 25 * 60 * 1000);
}

#[test]
fn update_step_runs_notifier_then_input() {
    let mut app = ClockrApp::new();
    let mut input = FrameInput::none();
    input.work_click = true;
    let out = app.update_step(0, input);
    assert!(!out.play_cue);
    // The repaint signal reflects the state before this frame's
    // input: nothing was running when the frame began.
    assert!(!out.repaint);
    assert!(app.timer_active);
    assert_eq!(app.remaining_time(0), 25 * 60 * 1000);

    // A quiet frame while running asks for a repaint.
    let quiet = app.update_step(1_000, FrameInput::none());
    assert!(!quiet.play_cue);
    assert!(quiet.repaint);

    // A frame after completion plays the cue exactly once.
    let done = app.update_step(25 * 60 * 1000, FrameInput::none());
    assert!(done.play_cue);
    assert_eq!(app.completed_timer_count, 1);
    let after = app.update_step(25 * 60 * 1000 + 16, FrameInput::none());
    assert!(!after.play_cue);
    assert_eq!(app.completed_timer_count, 1);
}

#[test]
fn update_step_key_toggle_stops_running_timer() {
    let mut app = ClockrApp::new();
    let mut start = FrameInput::none();
    start.break_key = true;
    app.update_step(0, start);
    assert!(app.timer_active);
    let mut toggle = FrameInput::none();
    toggle.break_key = true;
    let out = app.update_step(1_000, toggle);
    assert!(out.repaint);
    assert!(!app.timer_active);
}
