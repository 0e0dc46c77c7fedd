//! Civil time derived from a wall-clock timestamp, and the compact display
//! string built from it.
//!
//! A timestamp is milliseconds since the Unix epoch (UTC, no leap-second
//! handling, as the design assumes). The display form is always exactly
//! nine ASCII characters: a three-letter weekday, a space, the zero-padded
//! hour, a separator, and the zero-padded minute. The separator is `:` on
//! even seconds and a blank on odd seconds — a deliberate once-per-second
//! blink indicator.

use vstd::prelude::*;

verus! {

pub const MILLIS_PER_SEC: u64 = 1000;
pub const SECS_PER_MINUTE: u64 = 60;
pub const SECS_PER_HOUR: u64 = 3600;
pub const SECS_PER_DAY: u64 = 86400;

/// Whole seconds since the Unix epoch of the timestamp `ts_ms`.
pub open spec fn secs_of(ts_ms: u64) -> int {
    ts_ms as int / 1000
}

/// Seconds already elapsed within the timestamp's UTC day.
pub open spec fn second_of_day(ts_ms: u64) -> int {
    secs_of(ts_ms) % 86400
}

/// The UTC hour of the day, `0 ..= 23`.
pub open spec fn hour_of(ts_ms: u64) -> int {
    second_of_day(ts_ms) / 3600
}

/// The UTC minute of the hour, `0 ..= 59`.
pub open spec fn minute_of(ts_ms: u64) -> int {
    (second_of_day(ts_ms) % 3600) / 60
}

/// The UTC second of the minute, `0 ..= 59`.
pub open spec fn second_of(ts_ms: u64) -> int {
    second_of_day(ts_ms) % 60
}

/// The weekday index with Monday as `0` through Sunday as `6`. The Unix
/// epoch, day zero, fell on a Thursday, hence the offset of three.
pub open spec fn weekday_of(ts_ms: u64) -> int {
    (secs_of(ts_ms) / 86400 + 3) % 7
}

/// The ASCII digit for the value `d`.
pub open spec fn digit_char(d: int) -> char {
    if d == 0 {
        '0'
    } else if d == 1 {
        '1'
    } else if d == 2 {
        '2'
    } else if d == 3 {
        '3'
    } else if d == 4 {
        '4'
    } else if d == 5 {
        '5'
    } else if d == 6 {
        '6'
    } else if d == 7 {
        '7'
    } else if d == 8 {
        '8'
    } else {
        '9'
    }
}

/// The zero-padded two-digit rendering of `n`.
pub open spec fn two_digits(n: int) -> Seq<char> {
    seq![digit_char(n / 10), digit_char(n % 10)]
}

/// The three-letter name of the weekday with index `wd` (Monday is `0`).
pub open spec fn weekday_name(wd: int) -> Seq<char> {
    if wd == 0 {
        seq!['M', 'o', 'n']
    } else if wd == 1 {
        seq!['T', 'u', 'e']
    } else if wd == 2 {
        seq!['W', 'e', 'd']
    } else if wd == 3 {
        seq!['T', 'h', 'u']
    } else if wd == 4 {
        seq!['F', 'r', 'i']
    } else if wd == 5 {
        seq!['S', 'a', 't']
    } else {
        seq!['S', 'u', 'n']
    }
}

/// The separator between hour and minute: a colon on even seconds, a
/// blank on odd ones.
pub open spec fn separator(second: int) -> char {
    if second % 2 == 0 {
        ':'
    } else {
        ' '
    }
}

/// The full nine-character display string of the timestamp `ts_ms`.
pub open spec fn time_display(ts_ms: u64) -> Seq<char> {
    weekday_name(weekday_of(ts_ms)) + seq![' '] + two_digits(hour_of(ts_ms))
        + seq![separator(second_of(ts_ms))] + two_digits(minute_of(ts_ms))
}

/// The weekday index of `ts_ms`, Monday as `0`.
pub fn weekday_index(ts_ms: u64) -> (wd: u64)
    ensures
        wd == weekday_of(ts_ms),
        wd < 7,
{
    let days: u64 = ts_ms / MILLIS_PER_SEC / SECS_PER_DAY;
    (days + 3) % 7
}

/// The UTC hour of the day of `ts_ms`.
pub fn hour_of_day(ts_ms: u64) -> (h: u64)
    ensures
        h == hour_of(ts_ms),
        h < 24,
{
    (ts_ms / MILLIS_PER_SEC % SECS_PER_DAY) / SECS_PER_HOUR
}

/// The UTC minute of the hour of `ts_ms`.
pub fn minute_of_hour(ts_ms: u64) -> (m: u64)
    ensures
        m == minute_of(ts_ms),
        m < 60,
{
    (ts_ms / MILLIS_PER_SEC % SECS_PER_DAY % SECS_PER_HOUR) / SECS_PER_MINUTE
}

/// The UTC second of the minute of `ts_ms`.
pub fn second_of_minute(ts_ms: u64) -> (s: u64)
    ensures
        s == second_of(ts_ms),
        s < 60,
{
    ts_ms / MILLIS_PER_SEC % SECS_PER_DAY % SECS_PER_MINUTE
}

/// The ASCII digit of `d` as a one-character string slice.
fn digit_str(d: u64) -> (r: &'static str)
    requires
        d < 10,
    ensures
        r@ == seq![digit_char(d as int)],
        r@.len() == 1,
{
    match d {
        0 => {
            proof {
                reveal_strlit("0");
                assert("0"@ =~= seq![digit_char(0)]);
            }
            "0"
        },
        1 => {
            proof {
                reveal_strlit("1");
                assert("1"@ =~= seq![digit_char(1)]);
            }
            "1"
        },
        2 => {
            proof {
                reveal_strlit("2");
                assert("2"@ =~= seq![digit_char(2)]);
            }
            "2"
        },
        3 => {
            proof {
                reveal_strlit("3");
                assert("3"@ =~= seq![digit_char(3)]);
            }
            "3"
        },
        4 => {
            proof {
                reveal_strlit("4");
                assert("4"@ =~= seq![digit_char(4)]);
            }
            "4"
        },
        5 => {
            proof {
                reveal_strlit("5");
                assert("5"@ =~= seq![digit_char(5)]);
            }
            "5"
        },
        6 => {
            proof {
                reveal_strlit("6");
                assert("6"@ =~= seq![digit_char(6)]);
            }
            "6"
        },
        7 => {
            proof {
                reveal_strlit("7");
                assert("7"@ =~= seq![digit_char(7)]);
            }
            "7"
        },
        8 => {
            proof {
                reveal_strlit("8");
                assert("8"@ =~= seq![digit_char(8)]);
            }
            "8"
        },
        _ => {
            proof {
                reveal_strlit("9");
                assert("9"@ =~= seq![digit_char(9)]);
            }
            "9"
        },
    }
}

/// The three-letter weekday title of the weekday index `wd`.
fn weekday_str(wd: u64) -> (r: &'static str)
    requires
        wd < 7,
    ensures
        r@ == weekday_name(wd as int),
        r@.len() == 3,
{
    match wd {
        0 => {
            proof {
                reveal_strlit("Mon");
                assert("Mon"@ =~= weekday_name(0));
            }
            "Mon"
        },
        1 => {
            proof {
                reveal_strlit("Tue");
                assert("Tue"@ =~= weekday_name(1));
            }
            "Tue"
        },
        2 => {
            proof {
                reveal_strlit("Wed");
                assert("Wed"@ =~= weekday_name(2));
            }
            "Wed"
        },
        3 => {
            proof {
                reveal_strlit("Thu");
                assert("Thu"@ =~= weekday_name(3));
            }
            "Thu"
        },
        4 => {
            proof {
                reveal_strlit("Fri");
                assert("Fri"@ =~= weekday_name(4));
            }
            "Fri"
        },
        5 => {
            proof {
                reveal_strlit("Sat");
                assert("Sat"@ =~= weekday_name(5));
            }
            "Sat"
        },
        _ => {
            proof {
                reveal_strlit("Sun");
                assert("Sun"@ =~= weekday_name(6));
            }
            "Sun"
        },
    }
}

/// The hour/minute separator for the second value `s`.
fn separator_str(s: u64) -> (r: &'static str)
    ensures
        r@ == seq![separator(s as int)],
        r@.len() == 1,
{
    if s % 2 == 0 {
        proof {
            reveal_strlit(":");
            assert(":"@ =~= seq![separator(s as int)]);
        }
        ":"
    } else {
        proof {
            reveal_strlit(" ");
            assert(" "@ =~= seq![separator(s as int)]);
        }
        " "
    }
}

/// Renders the timestamp `ts_ms` as its nine-character display string:
/// three-letter weekday, space, two-digit hour, the blinking separator,
/// two-digit minute.
pub fn format_display(ts_ms: u64) -> (r: String)
    ensures
        r@ == time_display(ts_ms),
        r@.len() == 9,
{
    let wd = weekday_index(ts_ms);
    let h = hour_of_day(ts_ms);
    let m = minute_of_hour(ts_ms);
    let s = second_of_minute(ts_ms);

    let mut out = String::new();
    out.append(weekday_str(wd));
    proof {
        reveal_strlit(" ");
        assert(" "@ =~= seq![' ']);
    }
    out.append(" ");
    out.append(digit_str(h / 10));
    out.append(digit_str(h % 10));
    out.append(separator_str(s));
    out.append(digit_str(m / 10));
    out.append(digit_str(m % 10));
    proof {
        assert(out@ =~= time_display(ts_ms));
    }
    out
}

} // verus!
