use stretchia::stage::{classify, Stage};
use stretchia::timer::TimerState;

#[test]
fn classify_default_thresholds() {
    assert_eq!(classify(0, 45, 75), Stage::Green);
    assert_eq!(classify(45 * 60, 45, 75), Stage::Yellow);
    assert_eq!(classify(75 * 60, 45, 75), Stage::Red);
    assert_eq!(classify(90 * 60, 45, 75), Stage::Critical);
}

#[test]
fn classify_boundaries() {
    assert_eq!(classify(45 * 60 - 1, 45, 75), Stage::Green);
    assert_eq!(classify(60 * 60 - 1, 45, 75), Stage::Yellow);
    assert_eq!(classify(60 * 60, 45, 75), Stage::Orange);
    assert_eq!(classify(75 * 60 - 1, 45, 75), Stage::Orange);
    assert_eq!(classify(90 * 60 - 1, 45, 75), Stage::Red);
    assert_eq!(classify(u64::MAX, 45, 75), Stage::Critical);
}

#[test]
fn classify_inverted_thresholds_do_not_panic() {
    assert_eq!(classify(0, 60, 30), Stage::Green);
    assert_eq!(classify(30 * 60, 60, 30), Stage::Green);
    assert_eq!(classify(60 * 60, 60, 30), Stage::Critical);
    assert_eq!(classify(44 * 60, 45, 45), Stage::Green);
    assert_eq!(classify(45 * 60, 45, 45), Stage::Red);
}

#[test]
fn classify_huge_shake_threshold() {
    assert_eq!(classify(u64::MAX, 0, u64::MAX), Stage::Yellow);
    assert_eq!(classify(0, 0, u64::MAX), Stage::Yellow);
}

#[test]
fn classify_is_monotone_over_a_sweep() {
    let mut prev = Stage::Green;
    let mut e: u64 = 0;
    while e <= 100 * 60 {
        let s = classify(e, 45, 75);
        assert!(s >= prev);
        prev = s;
        e += 30;
    }
    assert_eq!(prev, Stage::Critical);
}

#[test]
fn stage_colors() {
    assert_eq!(Stage::Green.as_str(), "green");
    assert_eq!(Stage::Yellow.as_str(), "yellow");
    assert_eq!(Stage::Orange.as_str(), "orange");
    assert_eq!(Stage::Red.as_str(), "red");
    assert_eq!(Stage::Critical.as_str(), "red");
}

#[test]
fn ticking_through_the_stages() {
    let mut t = TimerState::new();
    t.apply_config(300, 45, 75);
    for _ in 0..44 * 60 {
        t.tick(0);
    }
    assert_eq!(t.calculate_stage(), Stage::Green);
    for _ in 0..60 {
        t.tick(0);
    }
    assert_eq!(t.elapsed_s, 45 * 60);
    assert_eq!(t.calculate_stage(), Stage::Yellow);
    while t.elapsed_s < 75 * 60 {
        t.tick(0);
    }
    assert_eq!(t.calculate_stage(), Stage::Red);
    while t.elapsed_s < 90 * 60 {
        t.tick(0);
    }
    assert_eq!(t.calculate_stage(), Stage::Critical);
}
