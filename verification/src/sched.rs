//! The synchronization scheduler: a perpetual state machine that drives
//! one protocol exchange after another.
//!
//! `Idle -> Resolving -> Exchanging -> Sleeping -> Idle`, forever. Every
//! failure — a lookup error, an empty address list, a transport or
//! protocol error, an out-of-range server time — ends the attempt and
//! schedules a quick retry; a success re-anchors the clock and schedules
//! the next attempt an hour later. No outcome stops the loop.
//!
//! The machine decides; it performs nothing. The surrounding runtime
//! carries out what each state calls for (resolve the pool hostname,
//! run the exchange, sleep) and reports the outcome back as the next
//! event.

use vstd::prelude::*;

use crate::addr::{IpEndpoint, Ipv4Address, NTP_PORT};
use crate::clock::Clock;
use crate::error::SntpcError;

verus! {

/// Seconds to sleep after a successful synchronization.
pub const SUCCESS_INTERVAL_SECS: u64 = 3600;

/// Seconds to sleep before retrying after a failed attempt.
pub const FAILURE_RETRY_SECS: u64 = 10;

/// The well-known time-server pool the scheduler resolves each attempt.
pub const POOL_NTP_ADDR: &'static str = "pool.ntp.org";

/// Where the scheduler stands; each state names the one piece of outside
/// work the runtime owes it next.
#[derive(Clone, Copy, Debug, PartialEq, Eq, Structural)]
pub enum SyncState {
    /// Ready to begin the next attempt.
    Idle,
    /// Waiting for the pool hostname to resolve to IPv4 addresses.
    Resolving,
    /// Waiting for the protocol exchange with `server` to finish.
    Exchanging { server: IpEndpoint },
    /// Waiting out the interval before the next attempt.
    Sleeping { duration_secs: u64 },
}

/// What the outside work reported back.
pub enum SyncEvent {
    /// The runtime is ready to start an attempt.
    Begin,
    /// The hostname lookup itself failed.
    DnsFailed,
    /// The hostname lookup returned these IPv4 addresses.
    DnsResolved { addrs: Vec<Ipv4Address> },
    /// The exchange failed: a bind, send, receive or protocol error.
    ExchangeFailed { error: SntpcError },
    /// The exchange succeeded; the server reported this many seconds
    /// since the Unix epoch.
    ServerTime { seconds: u64 },
    /// The sleep interval has elapsed.
    SleepDone,
}

/// Which events may answer which state: each state waits for exactly the
/// outcomes of the work it asked for.
pub open spec fn event_fits(state: SyncState, event: SyncEvent) -> bool {
    match event {
        SyncEvent::Begin => state is Idle,
        SyncEvent::DnsFailed => state is Resolving,
        SyncEvent::DnsResolved { .. } => state is Resolving,
        SyncEvent::ExchangeFailed { .. } => state is Exchanging,
        SyncEvent::ServerTime { .. } => state is Exchanging,
        SyncEvent::SleepDone => state is Sleeping,
    }
}

/// Converts a server-reported seconds-since-epoch value into a wall-clock
/// timestamp in milliseconds, failing distinctly when the value does not
/// fit the representable range.
pub fn wall_clock_ms_from_server_seconds(seconds: u64) -> (r: Result<u64, SntpcError>)
    ensures
        seconds * 1000 <= u64::MAX ==> r == Ok::<u64, SntpcError>((seconds * 1000) as u64),
        seconds * 1000 > u64::MAX ==> r == Err::<u64, SntpcError>(SntpcError::BadNtpResponse),
{
    match seconds.checked_mul(1000) {
        Some(ms) => Ok(ms),
        None => Err(SntpcError::BadNtpResponse),
    }
}

/// One transition of the scheduler.
///
/// The clock changes only on a valid `ServerTime` event, and then it is
/// re-anchored to the server's time in full; every failure leaves the
/// clock exactly as it was and schedules the short retry, while a success
/// schedules the long interval. `elapsed_ms` is the monotonic reading at
/// the moment the event is applied; a valid server time is never earlier
/// than it, monotonic zero lying at or after the epoch by construction.
pub fn step(state: &SyncState, event: SyncEvent, clock: &mut Clock, elapsed_ms: u64) -> (next:
    SyncState)
    requires
        event_fits(*state, event),
        event matches SyncEvent::ServerTime { seconds } ==> (seconds * 1000 <= u64::MAX
            ==> elapsed_ms <= seconds * 1000),
    ensures
        match event {
            SyncEvent::Begin => next == SyncState::Resolving && *final(clock) == *old(clock),
            SyncEvent::SleepDone => next == SyncState::Idle && *final(clock) == *old(clock),
            SyncEvent::DnsFailed => (next == SyncState::Sleeping {
                duration_secs: FAILURE_RETRY_SECS,
            }) && *final(clock) == *old(clock),
            SyncEvent::ExchangeFailed { .. } => (next == SyncState::Sleeping {
                duration_secs: FAILURE_RETRY_SECS,
            }) && *final(clock) == *old(clock),
            SyncEvent::DnsResolved { addrs } => *final(clock) == *old(clock) && if addrs@.len()
                == 0 {
                next == SyncState::Sleeping { duration_secs: FAILURE_RETRY_SECS }
            } else {
                next == SyncState::Exchanging {
                    server: IpEndpoint { addr: addrs@.last(), port: NTP_PORT },
                }
            },
            SyncEvent::ServerTime { seconds } => if seconds * 1000 <= u64::MAX {
                (next == SyncState::Sleeping { duration_secs: SUCCESS_INTERVAL_SECS })
                    && final(clock).sys_start_ms == seconds * 1000 - elapsed_ms
            } else {
                (next == SyncState::Sleeping { duration_secs: FAILURE_RETRY_SECS })
                    && *final(clock) == *old(clock)
            },
        },
{
    match event {
        SyncEvent::Begin => SyncState::Resolving,
        SyncEvent::SleepDone => SyncState::Idle,
        SyncEvent::DnsFailed => SyncState::Sleeping { duration_secs: FAILURE_RETRY_SECS },
        SyncEvent::ExchangeFailed { .. } => SyncState::Sleeping {
            duration_secs: FAILURE_RETRY_SECS,
        },
        SyncEvent::DnsResolved { addrs } => {
            if addrs.len() == 0 {
                SyncState::Sleeping { duration_secs: FAILURE_RETRY_SECS }
            } else {
                let server_ip = addrs[addrs.len() - 1];
                SyncState::Exchanging {
                    server: IpEndpoint { addr: server_ip, port: NTP_PORT },
                }
            }
        },
        SyncEvent::ServerTime { seconds } => {
            match wall_clock_ms_from_server_seconds(seconds) {
                Ok(now_ms) => {
                    clock.set_time(now_ms, elapsed_ms);
                    SyncState::Sleeping { duration_secs: SUCCESS_INTERVAL_SECS }
                },
                Err(_) => SyncState::Sleeping { duration_secs: FAILURE_RETRY_SECS },
            }
        },
    }
}

} // verus!
