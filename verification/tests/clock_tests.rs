use ntp_clock::{Clock, TimestampGen};

#[test]
fn new_clock_is_anchored_at_epoch() {
    let clock = Clock::new();
    assert_eq!(clock.sys_start_ms, 0);
    assert_eq!(clock.now(0), 0);
    assert_eq!(clock.now(12345), 12345);
}

#[test]
fn set_then_get_returns_the_set_time() {
    let mut clock = Clock::new();
    clock.set_time(1_700_000_000_000, 400);
    assert_eq!(clock.now(400), 1_700_000_000_000);
}

#[test]
fn set_time_anchors_at_now_minus_elapsed() {
    let mut clock = Clock::new();
    clock.set_time(1_000_000, 250_000);
    assert_eq!(clock.sys_start_ms, 750_000);
}

#[test]
fn reads_are_monotonic_between_syncs() {
    let mut clock = Clock::new();
    clock.set_time(1_700_000_000_000, 1_000);
    let t1 = clock.now(2_000);
    let t2 = clock.now(7_500);
    assert!(t2 >= t1);
    assert_eq!(t2 - t1, 7_500 - 2_000);
}

#[test]
fn resync_to_the_same_true_time_does_not_drift() {
    let t: u64 = 1_700_000_000_000;
    let e1: u64 = 4_000;
    let d: u64 = 3_600_000;

    let mut clock = Clock::new();
    clock.set_time(t, e1);
    let anchor_after_first = clock.sys_start_ms;

    // The clock kept perfect time for d milliseconds, so the second sync
    // reports exactly what the clock already says.
    assert_eq!(clock.now(e1 + d), t + d);
    clock.set_time(t + d, e1 + d);

    assert_eq!(clock.sys_start_ms, anchor_after_first);
    assert_eq!(clock.now(e1 + d), t + d);
}

#[test]
fn timestamp_gen_splits_seconds_and_micros() {
    let gen = TimestampGen::new(1_234_567);
    assert_eq!(gen.timestamp_sec(), 1_234);
    assert_eq!(gen.timestamp_subsec_micros(), 567_000);
}

#[test]
fn timestamp_gen_init_keeps_the_capture() {
    let mut gen = TimestampGen::new(9_999);
    gen.init();
    assert_eq!(gen.timestamp_sec(), 9);
    assert_eq!(gen.timestamp_subsec_micros(), 999_000);
}

#[test]
fn date_time_str_comes_from_the_current_estimate() {
    let mut clock = Clock::new();
    // Anchor so that now(1000) is Monday 1970-01-05 09:05:00 UTC.
    let monday_0905_00: u64 = (4 * 86400 + 9 * 3600 + 5 * 60) * 1000;
    clock.set_time(monday_0905_00, 1_000);
    let s = clock.get_date_time_str(1_000);
    assert_eq!(s, "Mon 09:05");
}
