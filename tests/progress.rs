use dozr::progress::{
    adaptive_slice_for, fixed_slice_for, get_adaptive_update_period, rounded_secs_of, Cadence,
    ProgressReporter, Tick,
};
use dozr::messages::{format_duration, progress_message};
use dozr::span::Span;

/// Runs the reporter against a simulated clock that advances by each slice
/// (plus `overshoot` nanoseconds of scheduling delay), and returns the
/// displays and the slices.
fn simulate(total: Span, cadence: Cadence, overshoot: u64) -> (Vec<u64>, Vec<Span>) {
    let mut reporter = ProgressReporter::new(total, cadence);
    let mut elapsed = Span::zero();
    let mut displays = Vec::new();
    let mut slices = Vec::new();
    for _ in 0..1_000_000 {
        let tick = reporter.step(elapsed);
        if let Some(s) = tick.display {
            displays.push(s);
        }
        match tick.sleep {
            Some(slice) => {
                slices.push(slice);
                elapsed = elapsed.saturating_add(slice).saturating_add(Span::from_nanos(overshoot));
            }
            None => return (displays, slices),
        }
    }
    panic!("the wait never completed");
}

#[test]
fn test_get_adaptive_update_period() {
    assert_eq!(get_adaptive_update_period(Span::from_secs(0)), Span::from_secs(1));
    assert_eq!(get_adaptive_update_period(Span::from_secs(10)), Span::from_secs(1));
    assert_eq!(get_adaptive_update_period(Span::from_secs(20)), Span::from_secs(1));

    assert_eq!(get_adaptive_update_period(Span::from_secs(21)), Span::from_secs(5));
    assert_eq!(get_adaptive_update_period(Span::from_secs(40)), Span::from_secs(5));
    assert_eq!(get_adaptive_update_period(Span::from_secs(60)), Span::from_secs(5));

    assert_eq!(get_adaptive_update_period(Span::from_secs(61)), Span::from_secs(10));
    assert_eq!(get_adaptive_update_period(Span::from_secs(150)), Span::from_secs(10));
    assert_eq!(get_adaptive_update_period(Span::from_secs(300)), Span::from_secs(10));

    assert_eq!(get_adaptive_update_period(Span::from_secs(301)), Span::from_secs(15));
    assert_eq!(get_adaptive_update_period(Span::from_secs(450)), Span::from_secs(15));
    assert_eq!(get_adaptive_update_period(Span::from_secs(600)), Span::from_secs(15));

    assert_eq!(get_adaptive_update_period(Span::from_secs(601)), Span::from_secs(60));
    assert_eq!(get_adaptive_update_period(Span::from_secs(1000)), Span::from_secs(60));
}

#[test]
fn adaptive_period_counts_fractions_of_a_second() {
    assert_eq!(get_adaptive_update_period(Span::from_millis(20_500)), Span::from_secs(5));
    assert_eq!(get_adaptive_update_period(Span::from_nanos(20_000_000_001)), Span::from_secs(5));
    assert_eq!(get_adaptive_update_period(Span::from_millis(60_001)), Span::from_secs(10));
    assert_eq!(get_adaptive_update_period(Span::from_millis(300_500)), Span::from_secs(15));
    assert_eq!(get_adaptive_update_period(Span::from_millis(600_999)), Span::from_secs(60));
}

#[test]
fn test_verbose_wait() {
    let total_wait = Span::from_millis(100);
    let update_period = Span::from_millis(10);
    let (displays, _) = simulate(total_wait, Cadence::Fixed(update_period), 0);
    let call_count = displays.len();
    assert!(call_count > 0);
}

#[test]
fn test_adaptive_verbose_wait() {
    let total_wait = Span::from_secs(5);
    let (displays, _) = simulate(total_wait, Cadence::Adaptive, 0);
    let call_count = displays.len();
    assert!(call_count > 0);
}

#[test]
fn completion_is_displayed_once_and_last_fixed_cadence() {
    let (displays, _) = simulate(Span::from_millis(1500), Cadence::Fixed(Span::from_millis(500)), 0);
    assert_eq!(displays, vec![2, 1, 0]);
    let (displays, _) = simulate(Span::from_millis(100), Cadence::Fixed(Span::from_millis(10)), 137);
    assert_eq!(displays.last(), Some(&0));
    assert_eq!(displays.iter().filter(|d| **d == 0).count(), 1);
}

#[test]
fn completion_is_displayed_once_and_last_adaptive() {
    for total_ms in [1u64, 499, 500, 5_000, 20_500, 61_000, 700_000] {
        let (displays, _) = simulate(Span::from_millis(total_ms), Cadence::Adaptive, 12_345);
        assert_eq!(displays.last(), Some(&0));
        assert_eq!(displays.iter().filter(|d| **d == 0).count(), 1);
    }
}

#[test]
fn zero_length_wait_still_signals_completion() {
    let mut reporter = ProgressReporter::new(Span::zero(), Cadence::Adaptive);
    assert_eq!(reporter.step(Span::zero()), Tick { display: Some(0), sleep: None });
    assert_eq!(reporter.step(Span::from_secs(1)), Tick { display: None, sleep: None });
}

#[test]
fn displays_only_when_rounded_seconds_change() {
    let mut reporter = ProgressReporter::new(Span::from_secs(10), Cadence::Fixed(Span::from_millis(100)));
    assert_eq!(reporter.step(Span::zero()).display, Some(10));
    assert_eq!(reporter.step(Span::from_millis(100)).display, None);
    assert_eq!(reporter.step(Span::from_millis(600)).display, Some(9));
    assert_eq!(reporter.step(Span::from_millis(9_600)).display, None);
    assert_eq!(reporter.step(Span::from_secs(10)).display, Some(0));
}

#[test]
fn fixed_slice_never_passes_the_end() {
    assert_eq!(fixed_slice_for(Span::from_secs(1), Span::from_millis(300)), Span::from_millis(300));
    assert_eq!(fixed_slice_for(Span::from_millis(250), Span::from_secs(3)), Span::from_millis(250));
    assert_eq!(fixed_slice_for(Span::zero(), Span::from_secs(3)), Span::from_millis(1));
    assert_eq!(fixed_slice_for(Span::from_secs(1), Span::from_nanos(10)), Span::from_millis(1));
}

#[test]
fn adaptive_slice_is_the_least_of_cadence_marker_and_boundary() {
    // 5 s cadence, 2.5 s to the 25 s marker, 7.5 s to the 20 s boundary.
    assert_eq!(adaptive_slice_for(Span::from_millis(27_500)), Span::from_millis(2_500));
    // 5 s cadence from just over 20 s: 0.5 s to the 20 s boundary.
    assert_eq!(adaptive_slice_for(Span::from_millis(20_500)), Span::from_millis(500));
    // 60 s cadence, 10.25 s to the 600 s boundary.
    assert_eq!(adaptive_slice_for(Span::from_millis(610_250)), Span::from_millis(10_250));
    // 10 s cadence, on a marker: a full cadence.
    assert_eq!(adaptive_slice_for(Span::from_secs(290)), Span::from_secs(10));
    // 1 s cadence, 0.4 s to the next whole second.
    assert_eq!(adaptive_slice_for(Span::from_millis(3_400)), Span::from_millis(400));
    // Never under a millisecond.
    assert_eq!(adaptive_slice_for(Span::from_nanos(20)), Span::from_millis(1));
}

#[test]
fn adaptive_run_does_not_jump_over_boundaries() {
    let total = Span::from_secs(700);
    let (_, slices) = simulate(total, Cadence::Adaptive, 0);
    let mut remaining = total.as_nanos();
    for slice in slices {
        let after = remaining.saturating_sub(slice.as_nanos());
        for boundary in [20u64, 60, 300, 600] {
            let b = boundary * 1_000_000_000;
            assert!(!(remaining > b && after < b), "crossed {boundary}s");
        }
        remaining = after;
    }
    assert_eq!(remaining, 0);
}

#[test]
fn rounding_is_half_up() {
    assert_eq!(rounded_secs_of(Span::from_millis(1_499)), 1);
    assert_eq!(rounded_secs_of(Span::from_millis(1_500)), 2);
    assert_eq!(rounded_secs_of(Span::from_millis(499)), 0);
    assert_eq!(rounded_secs_of(Span::from_nanos(u64::MAX)), 18_446_744_074);
}

#[test]
fn progress_lines_keep_their_format() {
    assert_eq!(progress_message(0), "Wait complete.");
    assert_eq!(progress_message(7), "[DOZR] Time remaining: 7s");
    assert_eq!(progress_message(1234), "[DOZR] Time remaining: 1234s");
}

#[test]
fn durations_format_by_magnitude() {
    assert_eq!(format_duration(Span::zero()), "0s");
    assert_eq!(format_duration(Span::from_millis(59_999)), "59s");
    assert_eq!(format_duration(Span::from_secs(65)), "1m 5s");
    assert_eq!(format_duration(Span::from_secs(3600)), "1h 0m 0s");
    assert_eq!(format_duration(Span::from_secs(3 * 3600 + 25 * 60 + 7)), "3h 25m 7s");
}
