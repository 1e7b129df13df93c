use stretchia::idle::{get_idle_seconds, idle_seconds_from_ioreg, idle_seconds_from_ticks};

#[test]
fn unsupported_platform_is_never_idle() {
    assert_eq!(get_idle_seconds(), 0);
}

#[test]
fn idle_from_ticks() {
    assert_eq!(idle_seconds_from_ticks(10_000, 10_000), 0);
    assert_eq!(idle_seconds_from_ticks(12_999, 10_000), 2);
    assert_eq!(idle_seconds_from_ticks(13_000, 10_000), 3);
}

#[test]
fn idle_from_ticks_across_wraparound() {
    assert_eq!(idle_seconds_from_ticks(1_000, u32::MAX - 999), 2);
    assert_eq!(idle_seconds_from_ticks(0, 1), 4_294_967);
}

#[test]
fn ioreg_reports_idle_nanoseconds() {
    let out = "+-o IOHIDSystem  <class IOHIDSystem>\n    |   \"HIDIdleTime\" = 12345678901\n    |   \"HIDKeyboard\" = 1\n";
    assert_eq!(idle_seconds_from_ioreg(out), 12);
}

#[test]
fn ioreg_without_idle_line_is_zero() {
    assert_eq!(idle_seconds_from_ioreg(""), 0);
    assert_eq!(idle_seconds_from_ioreg("\n\n"), 0);
    assert_eq!(idle_seconds_from_ioreg("  \"HIDOther\" = 99000000000\n"), 0);
}

#[test]
fn ioreg_skips_unparsable_idle_lines() {
    let out = "\"HIDIdleTime\" = <data>\n\"HIDIdleTime\" = 3000000000\n\"HIDIdleTime\" = 9000000000\n";
    assert_eq!(idle_seconds_from_ioreg(out), 3);
}

#[test]
fn ioreg_value_after_last_equals_and_trimmed() {
    assert_eq!(idle_seconds_from_ioreg("a=b \"HIDIdleTime\"=  7999999999  \r\n"), 7);
    assert_eq!(idle_seconds_from_ioreg("HIDIdleTime 5000000000"), 0);
    assert_eq!(idle_seconds_from_ioreg("5000000000 HIDIdleTime"), 0);
    assert_eq!(idle_seconds_from_ioreg("x\n\"HIDIdleTime\" = 999999999"), 0);
    assert_eq!(idle_seconds_from_ioreg("\"HIDIdleTime\" = 18446744073709551615"), 18_446_744_073);
}

#[test]
fn ioreg_value_trimmed_of_unicode_whitespace() {
    assert_eq!(idle_seconds_from_ioreg("\"HIDIdleTime\" =\u{a0}4000000000\u{3000}\n"), 4);
    assert_eq!(idle_seconds_from_ioreg("\"HIDIdleTime\" = \u{2009}6000000000\u{85}\u{202f}"), 6);
    assert_eq!(idle_seconds_from_ioreg("\"HIDIdleTime\" = 6\u{200b}000000000"), 0);
}

#[test]
fn ioreg_agrees_with_std_trim() {
    let values = ["\u{a0}8000000000", "8000000000\u{1680}", "\u{2028}\t8000000000 \u{205f}", "\u{feff}8000000000"];
    for v in values {
        let line = format!("\"HIDIdleTime\" = {}", v);
        let expected = v.trim().parse::<u64>().map(|n| n / 1_000_000_000).unwrap_or(0);
        assert_eq!(idle_seconds_from_ioreg(&line), expected, "{:?}", v);
    }
}
