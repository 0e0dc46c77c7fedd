//! A software wall clock for devices without a battery-backed real-time
//! clock, kept in step with a network time server.
//!
//! The clock pairs a free-running monotonic tick counter with a wall-clock
//! anchor (`sys_start`): the wall-clock time that corresponded to monotonic
//! tick zero. Reading the time adds the elapsed monotonic milliseconds to
//! that anchor; a successful network synchronization replaces the anchor.
//! A scheduler state machine drives the periodic synchronization with a
//! long interval after success and a short retry interval after failure.

mod addr;
mod clock;
mod datetime;
mod error;
mod sched;

pub use addr::{
    endpoint_of_sock_addr, endpoint_to_sock_addr, lemma_endpoint_round_trip,
    lemma_sock_addr_round_trip, send_target, sock_addr_of_endpoint, sock_addr_to_endpoint,
    IpEndpoint, Ipv4Address, Ipv6Address, SockAddr, NTP_PORT,
};
pub use clock::{
    lemma_monotonic_between_syncs, lemma_resync_no_drift, lemma_set_then_get, wall_at, Clock,
    TimestampGen,
};
pub use datetime::{
    digit_char, format_display, hour_of, hour_of_day, minute_of, minute_of_hour, second_of,
    second_of_day, second_of_minute, secs_of, separator, time_display, two_digits, weekday_index,
    weekday_name, weekday_of, MILLIS_PER_SEC, SECS_PER_DAY, SECS_PER_HOUR, SECS_PER_MINUTE,
};
pub use error::SntpcError;
pub use sched::{
    event_fits, step, wall_clock_ms_from_server_seconds, SyncEvent, SyncState,
    FAILURE_RETRY_SECS, POOL_NTP_ADDR, SUCCESS_INTERVAL_SECS,
};
