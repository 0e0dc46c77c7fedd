use chrono::{Datelike, Timelike};
use ntp_clock::{
    format_display, hour_of_day, minute_of_hour, second_of_minute, weekday_index,
};

fn ms(days: u64, h: u64, m: u64, s: u64) -> u64 {
    (days * 86400 + h * 3600 + m * 60 + s) * 1000
}

#[test]
fn monday_morning_even_second_uses_colon() {
    // 1970-01-05 (day 4) was a Monday.
    assert_eq!(format_display(ms(4, 9, 5, 0)), "Mon 09:05");
}

#[test]
fn monday_morning_odd_second_uses_blank() {
    assert_eq!(format_display(ms(4, 9, 5, 1)), "Mon 09 05");
}

#[test]
fn sunday_just_before_midnight() {
    // 1970-01-04 (day 3) was a Sunday.
    assert_eq!(format_display(ms(3, 23, 59, 58)), "Sun 23:59");
}

#[test]
fn epoch_itself_is_thursday_midnight() {
    assert_eq!(format_display(0), "Thu 00:00");
}

#[test]
fn display_is_always_nine_ascii_chars() {
    let samples = [
        0,
        999,
        1_000,
        ms(4, 9, 5, 1),
        ms(3, 23, 59, 58),
        1_700_000_000_123,
        u64::MAX,
    ];
    for &ts in samples.iter() {
        let s = format_display(ts);
        assert_eq!(s.len(), 9);
        assert!(s.is_ascii());
    }
}

#[test]
fn all_weekday_names_appear_in_order() {
    let names = ["Thu", "Fri", "Sat", "Sun", "Mon", "Tue", "Wed"];
    for (day, name) in names.iter().enumerate() {
        let s = format_display(ms(day as u64, 12, 30, 0));
        assert_eq!(&s[..3], *name);
        assert_eq!(&s[3..4], " ");
        assert_eq!(&s[4..], "12:30");
    }
}

#[test]
fn sub_second_millis_do_not_change_the_fields() {
    let base = ms(4, 9, 5, 1);
    for extra in [0u64, 1, 499, 999] {
        assert_eq!(format_display(base + extra), "Mon 09 05");
        assert_eq!(second_of_minute(base + extra), 1);
    }
}

#[test]
fn fields_match_chrono_on_assorted_timestamps() {
    let samples: [u64; 7] = [
        0,
        1_000,
        ms(4, 9, 5, 1),
        ms(3, 23, 59, 58),
        951_827_696_000,
        1_700_000_000_123,
        4_102_444_799_999,
    ];
    for &ts in samples.iter() {
        let secs = (ts / 1000) as i64;
        let dt = chrono::DateTime::from_timestamp(secs, 0).unwrap();
        assert_eq!(u64::from(dt.weekday().num_days_from_monday()), weekday_index(ts));
        assert_eq!(u64::from(dt.hour()), hour_of_day(ts));
        assert_eq!(u64::from(dt.minute()), minute_of_hour(ts));
        assert_eq!(u64::from(dt.second()), second_of_minute(ts));
    }
}
