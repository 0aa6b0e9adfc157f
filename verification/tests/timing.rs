use concentratord_core::config::{TimeStampMethod, TimeZone};
use concentratord_core::timebase::{TimeBase, Timestamp, GPS_UNIX_OFFSET_US, WRAP_US};
use concentratord_core::timersync::{get_concentrator_count, timesync, TimerSyncState};
use concentratord_core::TimeError;

#[test]
fn timezone_round_trip_plus() {
    let (tz, ok) = TimeZone::parse("+0530");
    assert!(ok);
    assert!(!tz.negative);
    assert_eq!(tz.hours, 5);
    assert_eq!(tz.minutes, 30);
    assert_eq!(tz.render(), "+0530");
}

#[test]
fn timezone_round_trip_minus() {
    let (tz, ok) = TimeZone::parse("-0800");
    assert!(ok);
    assert!(tz.negative);
    assert_eq!(tz.hours, 8);
    assert_eq!(tz.minutes, 0);
    assert_eq!(tz.render(), "-0800");
}

#[test]
fn timezone_short_string_falls_back_to_zero() {
    let (tz, ok) = TimeZone::parse("0530");
    assert!(!ok);
    assert_eq!(tz, TimeZone::zero());
}

#[test]
fn timezone_non_numeric_falls_back_to_zero() {
    let (tz, ok) = TimeZone::parse("+05a0");
    assert!(!ok);
    assert_eq!(tz, TimeZone::zero());
}

#[test]
fn timezone_bad_sign_falls_back_to_zero() {
    let (tz, ok) = TimeZone::parse("*0530");
    assert!(!ok);
    assert_eq!(tz, TimeZone::zero());
}

#[test]
fn timezone_render_then_parse_is_identity() {
    let tz = TimeZone { negative: true, hours: 12, minutes: 45 };
    let rendered = tz.render();
    assert_eq!(rendered, "-1245");
    let (back, ok) = TimeZone::parse(rendered.as_str());
    assert!(ok);
    assert_eq!(back, tz);
}

#[test]
fn timezone_zero_renders_canonically() {
    assert_eq!(TimeZone::zero().render(), "+0000");
}

#[test]
fn timestamp_method_parse_and_label() {
    let (m, ok) = TimeStampMethod::parse("gps");
    assert!(ok);
    assert_eq!(m, TimeStampMethod::GPS);
    assert_eq!(m.label(), "gps");

    let (m, ok) = TimeStampMethod::parse("systemtime");
    assert!(ok);
    assert_eq!(m, TimeStampMethod::Systemtime);
    assert_eq!(m.label(), "systemtime");
}

#[test]
fn timestamp_method_unrecognized_falls_back_to_gps() {
    let (m, ok) = TimeStampMethod::parse("sundial");
    assert!(!ok);
    assert_eq!(m, TimeStampMethod::GPS);
}

#[test]
fn wraparound_advances_offset_by_one_period() {
    let mut tb = TimeBase::start(TimeStampMethod::Systemtime, TimeZone::zero(), 1_000_000);
    tb.update_counter(4_294_960_000);
    assert_eq!(tb.wrap_offset_us, 0);
    assert_eq!(tb.prev_counter, 4_294_960_000);
    tb.update_counter(100);
    assert_eq!(tb.wrap_offset_us, WRAP_US);
    assert_eq!(tb.wrap_offset_us, 4_294_967_296);
    assert_eq!(tb.prev_counter, 100);
}

#[test]
fn timestamps_monotonic_across_wraparound() {
    // Feed samples in process order; each timestamp is read after its
    // bookkeeping step is applied. Across the wraparound the computed
    // instants keep increasing.
    let mut tb = TimeBase::start(TimeStampMethod::Systemtime, TimeZone::zero(), 1_000_000_000_000);
    let samples: [u32; 4] = [1_000, 4_294_960_000, 100, 50_000];
    let mut last_us: u128 = 0;
    for &c in samples.iter() {
        tb.update_counter(c);
        let t = tb.calculate_timestamp(c, None).unwrap();
        let us = (t.seconds as u128) * 1_000_000 + (t.nanos as u128) / 1000;
        assert!(us >= last_us, "timestamp regressed: {} < {}", us, last_us);
        last_us = us;
    }
}

#[test]
fn timestamp_at_start_equals_start_instant() {
    let start_us: u64 = 1_700_000_000_000_000;
    let tb = TimeBase::start(TimeStampMethod::Systemtime, TimeZone::zero(), start_us);
    let t = tb.calculate_timestamp(0, None).unwrap();
    assert_eq!(t, Timestamp { seconds: 1_700_000_000, nanos: 0 });
}

#[test]
fn timestamp_applies_timezone_offset() {
    let start_us: u64 = 1_700_000_000_000_000;
    let (tz, ok) = TimeZone::parse("+0100");
    assert!(ok);
    let tb = TimeBase::start(TimeStampMethod::Systemtime, tz, start_us);
    let t = tb.calculate_timestamp(0, None).unwrap();
    assert_eq!(t.seconds, 1_700_000_000 + 3600);

    let (tz, ok) = TimeZone::parse("-0800");
    assert!(ok);
    let tb = TimeBase::start(TimeStampMethod::Systemtime, tz, start_us);
    let t = tb.calculate_timestamp(0, None).unwrap();
    assert_eq!(t.seconds, 1_700_000_000 - 8 * 3600);
}

#[test]
fn timestamp_includes_counter_and_wrap_offset() {
    let start_us: u64 = 1_700_000_000_000_000;
    let mut tb = TimeBase::start(TimeStampMethod::Systemtime, TimeZone::zero(), start_us);
    tb.update_counter(10);
    tb.update_counter(5); // wraparound committed
    let t = tb.calculate_timestamp(2_500_000, None).unwrap();
    let expect_us = start_us as u128 + 4_294_967_296 + 2_500_000;
    assert_eq!(t.seconds as u128, expect_us / 1_000_000);
    assert_eq!(t.nanos as u128, (expect_us % 1_000_000) * 1000);
}

#[test]
fn epochtime_is_relative_to_gps_epoch_without_timezone() {
    let (tz, ok) = TimeZone::parse("+0100");
    assert!(ok);
    let start_us: u64 = GPS_UNIX_OFFSET_US + 5_000_000;
    let tb = TimeBase::start(TimeStampMethod::Systemtime, tz, start_us);
    let d = tb.calculate_epochtime(0, None).unwrap();
    // 5 seconds after the GPS epoch; the timezone offset does not apply.
    assert_eq!(d.seconds, 5);
    assert_eq!(d.nanos, 0);
}

#[test]
fn gps_mode_passes_collaborator_time_through() {
    let tb = TimeBase::start(TimeStampMethod::GPS, TimeZone::zero(), 0);
    let fix = Timestamp { seconds: 1_300_000_000, nanos: 250_000_000 };
    assert_eq!(tb.calculate_timestamp(42, Some(fix)), Ok(fix));
    assert_eq!(tb.calculate_timestamp(42, None), Err(TimeError::TimeUnavailable));
}

#[test]
fn gps_mode_ignores_counter_samples() {
    let mut tb = TimeBase::start(TimeStampMethod::GPS, TimeZone::zero(), 0);
    tb.update_counter(4_294_960_000);
    tb.update_counter(100);
    assert_eq!(tb.wrap_offset_us, 0);
    assert_eq!(tb.prev_counter, 0);
}

#[test]
fn concentrator_count_extrapolates_from_wall_clock() {
    let state = TimerSyncState::new(1_000, 2_000_000);
    assert_eq!(get_concentrator_count(&state, 2_000_500), 1_500);
}

#[test]
fn concentrator_count_wraps_modularly() {
    let state = TimerSyncState::new(4_294_967_000, 0);
    // 1000 microseconds later the counter has passed the top.
    assert_eq!(get_concentrator_count(&state, 1_000), 704);
}

#[test]
fn timesync_reports_drift_and_commits_sample() {
    let mut state = TimerSyncState::new(1_000, 1_000_000);
    let mut tb = TimeBase::start(TimeStampMethod::Systemtime, TimeZone::zero(), 1_000_000);
    // 60 s of wall clock, 59.999900 s of counter: drift is 100 us.
    let drift = timesync(&mut state, &mut tb, 60_000_900, 61_000_000);
    assert_eq!(drift, 100);
    assert_eq!(state.prev_concentrator_count, 60_000_900);
    assert_eq!(state.prev_unix_us, 61_000_000);
    assert_eq!(tb.prev_counter, 60_000_900);
    assert_eq!(tb.wrap_offset_us, 0);
}

#[test]
fn timesync_handles_one_wraparound_in_the_interval() {
    let mut state = TimerSyncState::new(4_294_960_000, 0);
    let mut tb = TimeBase::start(TimeStampMethod::Systemtime, TimeZone::zero(), 0);
    tb.update_counter(4_294_960_000);
    // Elapsed counter ticks: 100 + (2^32 - 1) - 4_294_960_000 = 7_395.
    let drift = timesync(&mut state, &mut tb, 100, 7_400);
    assert_eq!(drift, 5);
    // The sample fed into the time base committed the wraparound.
    assert_eq!(tb.wrap_offset_us, WRAP_US);
    assert_eq!(tb.prev_counter, 100);
}

#[test]
fn defaults_are_gps_and_zero_offset() {
    assert_eq!(TimeStampMethod::default(), TimeStampMethod::GPS);
    assert_eq!(TimeZone::default(), TimeZone::zero());
}
