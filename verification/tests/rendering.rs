use stopwatch::render::{render_elapsed, render_log_line, render_status};

fn through_chrono(millis: i64) -> String {
    let elapsed = chrono::TimeDelta::milliseconds(millis);
    format!(
        "{:02}:{:02}:{:02}",
        elapsed.num_hours(),
        elapsed.num_minutes() % 60,
        elapsed.num_seconds() % 60
    )
}

#[test]
fn zero_is_all_zeros() {
    assert_eq!(render_elapsed(0), "00:00:00");
}

#[test]
fn seconds_are_padded() {
    assert_eq!(render_elapsed(5_000), "00:00:05");
    assert_eq!(render_elapsed(59_000), "00:00:59");
}

#[test]
fn fractions_of_a_second_are_dropped() {
    assert_eq!(render_elapsed(999), "00:00:00");
    assert_eq!(render_elapsed(1_000), "00:00:01");
    assert_eq!(render_elapsed(5_999), "00:00:05");
}

#[test]
fn minutes_and_seconds_wrap_at_sixty() {
    assert_eq!(render_elapsed(60_000), "00:01:00");
    assert_eq!(render_elapsed(65_000), "00:01:05");
    assert_eq!(render_elapsed(3_599_000), "00:59:59");
    assert_eq!(render_elapsed(3_600_000), "01:00:00");
    assert_eq!(render_elapsed(3_661_000), "01:01:01");
}

#[test]
fn hours_do_not_roll_over_into_days() {
    assert_eq!(render_elapsed(24 * 3_600_000), "24:00:00");
    assert_eq!(render_elapsed(25 * 3_600_000 + 61_000), "25:01:01");
    assert_eq!(render_elapsed(100 * 3_600_000), "100:00:00");
    assert_eq!(render_elapsed(12_345 * 3_600_000 + 7_000), "12345:00:07");
}

#[test]
fn a_negative_time_carries_its_sign_in_each_field() {
    assert_eq!(render_elapsed(-3_000), "00:00:-3");
    assert_eq!(render_elapsed(-999), "00:00:00");
    assert_eq!(render_elapsed(-65_000), "00:-1:-5");
    assert_eq!(render_elapsed(-(11 * 3_600_000 + 12 * 60_000 + 13_000)), "-11:-12:-13");
}

#[test]
fn the_ends_of_the_range_are_rendered() {
    assert_eq!(render_elapsed(i64::MAX), "2562047788015:12:55");
    assert_eq!(render_elapsed(i64::MIN), "-2562047788015:-12:-55");
}

#[test]
fn rendering_agrees_with_chrono_and_std() {
    let samples: [i64; 16] = [
        0,
        1,
        999,
        1_000,
        9_999,
        10_000,
        59_999,
        60_000,
        3_599_999,
        3_600_000,
        86_400_000,
        359_999_000,
        360_000_000,
        -1,
        -1_000,
        -3_600_001,
    ];
    for millis in samples {
        assert_eq!(render_elapsed(millis), through_chrono(millis));
    }
    let mut millis: i64 = -7_300_000;
    while millis < 7_300_000 {
        assert_eq!(render_elapsed(millis), through_chrono(millis));
        millis += 7_919;
    }
}

#[test]
fn status_line_overwrites_in_place() {
    let line = render_status(5_000);
    assert_eq!(line, "\rElapsed time: 00:00:05");
    assert!(line.starts_with('\r'));
    assert!(!line.contains('\n'));
}

#[test]
fn log_line_joins_with_a_comma() {
    assert_eq!(
        render_log_line("2024-03-01 17:45:10,Fri", "00:00:05"),
        "2024-03-01 17:45:10,Fri,00:00:05"
    );
    assert_eq!(render_log_line("", ""), ",");
}
