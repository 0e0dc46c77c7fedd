//! The software wall clock.
//!
//! The clock owns one piece of state: `sys_start_ms`, the wall-clock time in
//! milliseconds since the Unix epoch that corresponded to monotonic-timer
//! value zero. The current wall-clock time is always that anchor plus the
//! monotonic milliseconds elapsed so far; a synchronization replaces the
//! anchor and nothing else. The monotonic reading itself comes from the
//! platform, so every operation here takes the elapsed milliseconds as an
//! argument.

use vstd::prelude::*;

use crate::datetime;

verus! {

/// The wall-clock time, in milliseconds since the Unix epoch, that a clock
/// anchored at `c` shows once `elapsed_ms` monotonic milliseconds have
/// passed since monotonic zero.
pub open spec fn wall_at(c: Clock, elapsed_ms: int) -> int {
    c.sys_start_ms + elapsed_ms
}

/// Maps the free-running monotonic timer to wall-clock time.
///
/// `sys_start_ms` is the only mutable state of the whole core; readers
/// derive every answer from it and the current monotonic reading.
pub struct Clock {
    /// Wall-clock milliseconds since the Unix epoch at monotonic zero.
    pub sys_start_ms: u64,
}

impl Clock {
    /// A fresh clock anchored at the time origin (the Unix epoch), the
    /// sentinel used until the first synchronization completes.
    pub fn new() -> (clock: Clock)
        ensures
            clock.sys_start_ms == 0,
    {
        Clock { sys_start_ms: 0 }
    }

    /// Re-anchors the clock so that the current wall-clock time reads
    /// `now_ms` when `elapsed_ms` monotonic milliseconds have passed.
    ///
    /// The caller guarantees `elapsed_ms <= now_ms`: monotonic zero lies at
    /// or after the epoch, so any observed wall-clock time is at least the
    /// monotonic time elapsed since boot.
    pub fn set_time(&mut self, now_ms: u64, elapsed_ms: u64)
        requires
            elapsed_ms <= now_ms,
        ensures
            final(self).sys_start_ms == now_ms - elapsed_ms,
            wall_at(*final(self), elapsed_ms as int) == now_ms,
    {
        self.sys_start_ms = now_ms - elapsed_ms;
    }

    /// The current wall-clock estimate in milliseconds since the Unix
    /// epoch: the anchor plus the elapsed monotonic milliseconds.
    pub fn now(&self, elapsed_ms: u64) -> (now_ms: u64)
        requires
            self.sys_start_ms + elapsed_ms <= u64::MAX,
        ensures
            now_ms == wall_at(*self, elapsed_ms as int),
    {
        self.sys_start_ms + elapsed_ms
    }

    /// The current wall-clock estimate rendered as the nine-character
    /// display string: three-letter weekday, space, two-digit hour, the
    /// blinking separator, two-digit minute.
    pub fn get_date_time_str(&self, elapsed_ms: u64) -> (r: String)
        requires
            self.sys_start_ms + elapsed_ms <= u64::MAX,
        ensures
            r@ == datetime::time_display((self.sys_start_ms + elapsed_ms) as u64),
            r@.len() == 9,
    {
        let now_ms = self.now(elapsed_ms);
        datetime::format_display(now_ms)
    }
}

/// Monotonicity between syncs: two reads of the clock with no intervening
/// re-anchoring never go backwards, and their difference is exactly the
/// monotonic time elapsed between them.
pub proof fn lemma_monotonic_between_syncs(c: Clock, e1: int, e2: int)
    requires
        e1 <= e2,
    ensures
        wall_at(c, e1) <= wall_at(c, e2),
        wall_at(c, e2) - wall_at(c, e1) == e2 - e1,
{
}

/// Set/get consistency: immediately after `set_time(t)` — that is, with no
/// further monotonic time elapsed — the clock reads exactly `t`.
pub proof fn lemma_set_then_get(c: Clock, t: u64, e: u64)
    requires
        e <= t,
        c.sys_start_ms == t - e,
    ensures
        wall_at(c, e as int) == t,
{
}

/// Idempotent re-sync: a first sync to true time `t` and, `d` milliseconds
/// of wall-clock time later, a second sync to the then-true time `t + d`
/// produce the same anchor, so repeated syncs against an agreeing time
/// source never drift the mapping, and the clock reads `t + d` right after
/// the second sync.
pub proof fn lemma_resync_no_drift(c1: Clock, c2: Clock, t: u64, e: u64, d: u64)
    requires
        e <= t,
        c1.sys_start_ms == t - e,
        t + d <= u64::MAX,
        e + d <= u64::MAX,
        c2.sys_start_ms == (t + d) - (e + d),
    ensures
        c2 == c1,
        wall_at(c2, e + d) == t + d,
{
}

/// Supplies the request's origin timestamp to the protocol client: the
/// clock's wall-clock estimate captured once at request time, split into
/// whole seconds and the microseconds of the current second.
#[derive(Clone, Copy)]
pub struct TimestampGen {
    /// The wall-clock estimate, in milliseconds since the Unix epoch, read
    /// from the clock when the request was prepared.
    pub now_ms: u64,
}

impl TimestampGen {
    /// Captures the clock reading the generator will report.
    pub fn new(now_ms: u64) -> (g: TimestampGen)
        ensures
            g.now_ms == now_ms,
    {
        TimestampGen { now_ms }
    }

    /// Prepares the generator for a reading; the captured estimate is
    /// fixed at construction, so there is nothing to refresh.
    pub fn init(&mut self)
        ensures
            *final(self) == *old(self),
    {
    }

    /// Whole seconds since the Unix epoch of the captured estimate.
    pub fn timestamp_sec(&self) -> (s: u64)
        ensures
            s == self.now_ms / 1000,
    {
        self.now_ms / 1000
    }

    /// Microseconds within the current second of the captured estimate.
    pub fn timestamp_subsec_micros(&self) -> (us: u32)
        ensures
            us == (self.now_ms % 1000) * 1000,
    {
        let sub_ms: u64 = self.now_ms % 1000;
        (sub_ms * 1000) as u32
    }
}

} // verus!
