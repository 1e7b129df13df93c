use stretchia::stage::Stage;
use stretchia::timer::{Mode, TimerState};

fn state_at(elapsed_s: u64) -> TimerState {
    let mut t = TimerState::new();
    t.elapsed_s = elapsed_s;
    t
}

#[test]
fn new_state_defaults() {
    let t = TimerState::new();
    assert_eq!(t.mode, Mode::Sitting);
    assert_eq!(t.elapsed_s, 0);
    assert_eq!(t.treadmill_start, None);
    assert_eq!(t.sitting_before_s, 0);
    assert!(!t.is_afk);
    assert_eq!(t.afk_threshold_s, 300);
    assert_eq!(t.warn_at_min, 45);
    assert_eq!(t.shake_at_min, 75);
    assert_eq!(t.calculate_stage(), Stage::Green);
}

#[test]
fn tick_counts_only_active_seconds() {
    let mut t = TimerState::new();
    assert!(!t.tick(299));
    assert_eq!(t.elapsed_s, 1);
    assert!(t.tick(300));
    assert!(t.is_afk);
    assert_eq!(t.elapsed_s, 1);
    assert!(!t.tick(10_000));
    assert_eq!(t.elapsed_s, 1);
    assert!(t.tick(0));
    assert!(!t.is_afk);
    assert_eq!(t.elapsed_s, 2);
}

#[test]
fn reset_from_sitting() {
    let mut t = state_at(1234);
    t.reset();
    assert_eq!(t.elapsed_s, 0);
    assert_eq!(t.mode, Mode::Sitting);
    assert_eq!(t.sitting_before_s, 1234);
    assert_eq!(t.treadmill_start, None);
}

#[test]
fn reset_from_treadmill() {
    let mut t = state_at(50);
    t.start_treadmill(1_000);
    for _ in 0..7 {
        t.tick(0);
    }
    t.reset();
    assert_eq!(t.elapsed_s, 0);
    assert_eq!(t.mode, Mode::Sitting);
    assert_eq!(t.sitting_before_s, 7);
    assert_eq!(t.treadmill_start, None);
}

#[test]
fn treadmill_session_reports_active_ticks() {
    let mut t = state_at(1200);
    t.start_treadmill(1_700_000_000);
    assert_eq!(t.mode, Mode::Treadmill);
    assert_eq!(t.elapsed_s, 0);
    assert_eq!(t.sitting_before_s, 1200);
    for _ in 0..600 {
        t.tick(0);
    }
    let (started, duration, sitting_before) = t.stop_treadmill(1_700_000_900);
    assert_eq!(started, 1_700_000_000);
    assert_eq!(duration, 600);
    assert_eq!(sitting_before, 1200);
    assert_eq!(t.mode, Mode::Sitting);
    assert_eq!(t.elapsed_s, 0);
    assert_eq!(t.sitting_before_s, 0);
    assert_eq!(t.treadmill_start, None);
}

#[test]
fn treadmill_duration_skips_afk_ticks() {
    let mut t = TimerState::new();
    t.start_treadmill(10);
    let idles: [u64; 8] = [0, 400, 5, 299, 300, 1000, 2, 0];
    for i in idles {
        t.tick(i);
    }
    let (_, duration, _) = t.stop_treadmill(20);
    assert_eq!(duration, 5);
}

#[test]
fn restarting_the_treadmill_replaces_the_start() {
    let mut t = state_at(90);
    t.start_treadmill(100);
    t.tick(0);
    t.start_treadmill(200);
    assert_eq!(t.treadmill_start, Some(200));
    assert_eq!(t.sitting_before_s, 1);
    let (started, duration, _) = t.stop_treadmill(300);
    assert_eq!(started, 200);
    assert_eq!(duration, 0);
}

#[test]
fn stop_without_start_falls_back_to_now() {
    let mut t = state_at(42);
    let (started, duration, sitting_before) = t.stop_treadmill(777);
    assert_eq!(started, 777);
    assert_eq!(duration, 42);
    assert_eq!(sitting_before, 0);
}

#[test]
fn apply_config_changes_only_thresholds() {
    let mut t = state_at(46 * 60);
    assert_eq!(t.calculate_stage(), Stage::Yellow);
    t.apply_config(300, 30, 60);
    assert_eq!(t.calculate_stage(), Stage::Orange);
    t.apply_config(60, 45, 75);
    assert_eq!(t.elapsed_s, 46 * 60);
    assert_eq!(t.afk_threshold_s, 60);
    assert_eq!(t.calculate_stage(), Stage::Yellow);
    t.apply_config(60, 50, 75);
    assert_eq!(t.calculate_stage(), Stage::Green);
    assert!(t.tick(60));
}

#[test]
fn payload_reports_state() {
    let mut t = state_at(80 * 60);
    let p = t.tick_payload();
    assert_eq!(p.mode, "Sitting");
    assert_eq!(p.elapsed_s, 4800);
    assert_eq!(p.stage, "red");
    assert!(!p.is_afk);
    assert!(!p.is_treadmill);
    t.start_treadmill(1);
    t.tick(1_000);
    let p = t.tick_payload();
    assert_eq!(p.mode, "Treadmill");
    assert_eq!(p.stage, "green");
    assert!(p.is_afk);
    assert!(p.is_treadmill);
    assert_eq!(Mode::Sitting.as_str(), "Sitting");
}
