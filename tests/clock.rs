use chrono::{Duration as ChronoDuration, Local};
use dozr::clock::{parse_time_until, resolve_time_until, time_until_parsed, TimeOfDay};
use dozr::conditions::WaitError;
use dozr::span::Span;

#[test]
fn test_parse_time_until_in_future() {
    let now = Local::now();
    let future_time = now + ChronoDuration::minutes(1);
    let time_str = future_time.format("%H:%M:%S").to_string();
    let duration = parse_time_until(&time_str).unwrap();
    assert!(duration > Span::from_secs(50) && duration <= Span::from_secs(60));
}

#[test]
fn test_parse_time_until_in_past_rolls_to_next_day() {
    let now = Local::now();
    let past_time = now - ChronoDuration::minutes(1);
    let time_str = past_time.format("%H:%M:%S").to_string();
    let duration = parse_time_until(&time_str).unwrap();
    assert!(duration > Span::from_secs(23 * 3600));
}

#[test]
fn test_parse_time_invalid_format() {
    assert!(parse_time_until("invalid-time").is_err());
    assert!(parse_time_until("25:00").is_err());
    assert!(parse_time_until("10:65").is_err());
}

#[test]
fn invalid_time_is_reported_as_format_error() {
    assert_eq!(parse_time_until("invalid-time"), Err(WaitError::InvalidTimeFormat));
    assert_eq!(time_until_parsed(None, TimeOfDay::new(0, 0)), Err(WaitError::InvalidTimeFormat));
}

#[test]
fn hh_mm_is_accepted() {
    let d = parse_time_until("07:15").unwrap();
    assert!(d < Span::from_secs(24 * 3600));
}

#[test]
fn target_five_seconds_ahead_or_behind() {
    let now = TimeOfDay::new(12 * 3600, 0);
    assert_eq!(resolve_time_until(TimeOfDay::new(12 * 3600 + 5, 0), now), Span::from_secs(5));
    assert_eq!(
        resolve_time_until(TimeOfDay::new(12 * 3600 - 5, 0), now),
        Span::from_secs(23 * 3600 + 59 * 60 + 55)
    );
    let now_with_fraction = TimeOfDay::new(10, 250_000_000);
    assert_eq!(
        resolve_time_until(TimeOfDay::new(15, 0), now_with_fraction),
        Span::from_millis(4_750)
    );
}

#[test]
fn target_equal_to_now_waits_zero() {
    let now = TimeOfDay::new(3600, 0);
    assert_eq!(resolve_time_until(now, now), Span::zero());
}

#[test]
fn target_just_past_midnight_rolls_over() {
    let now = TimeOfDay::new(23 * 3600 + 59 * 60 + 59, 0);
    assert_eq!(time_until_parsed(Some((1, 0)), now), Ok(Span::from_secs(2)));
}

#[test]
fn clock_time_resolution_stays_under_a_day() {
    for s in ["00:00", "12:30", "23:59:59", "06:07:08"] {
        let d = parse_time_until(s).unwrap();
        assert!(d < Span::from_secs(24 * 3600));
    }
}
