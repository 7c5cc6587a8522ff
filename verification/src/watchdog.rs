//! The inactivity watchdog.
//!
//! The keep-alive of the wire protocol does not notice a broker that accepts
//! the connection and then stops delivering. The watchdog is the client's own
//! check: it remembers when the broker was last heard of and tells when that
//! was too long ago.
//!
//! Time is a reading of a monotonic clock in nanoseconds. The watchdog never
//! reads a clock itself: every call is given the current reading.

use vstd::prelude::*;

verus! {

/// Nanoseconds in a second.
pub const NANOS_PER_SECOND: u128 = 1_000_000_000;

/// Seconds of silence after which a session is given up.
pub const STALE_AFTER_SECONDS: u64 = 300;

/// Whether more than `timeout_seconds` lie between the clock readings `last`
/// and `now`. A reading before `last` is not stale.
pub open spec fn stale_at(last: u128, now: u128, timeout_seconds: u64) -> bool {
    now - last > timeout_seconds * NANOS_PER_SECOND
}

/// Remembers the clock reading of the last activity.
pub struct Watchdog {
    last_activity: u128,
}

impl View for Watchdog {
    type V = u128;

    closed spec fn view(&self) -> u128 {
        self.last_activity
    }
}

impl Watchdog {
    /// A watchdog that counts from `now`.
    pub fn new(now: u128) -> (watchdog: Self)
        ensures
            watchdog@ == now,
    {
        Watchdog { last_activity: now }
    }

    /// Notes that the broker was heard of at `now`.
    pub fn record_activity(&mut self, now: u128)
        ensures
            final(self)@ == now,
    {
        self.last_activity = now;
    }

    /// Whether at `now` the last activity is more than `timeout_seconds` ago.
    pub fn is_stale(&self, now: u128, timeout_seconds: u64) -> (stale: bool)
        ensures
            stale == stale_at(self@, now, timeout_seconds),
    {
        if now <= self.last_activity {
            false
        } else {
            let limit: u128 = (timeout_seconds as u128) * NANOS_PER_SECOND;
            now - self.last_activity > limit
        }
    }
}

/// At the moment of an activity nothing is stale, whatever the timeout.
pub proof fn lemma_fresh_at_activity(now: u128, timeout_seconds: u64)
    ensures
        !stale_at(now, now, timeout_seconds),
{
}

/// Silence only grows: what is stale stays stale at every later reading of
/// the clock, until new activity is recorded.
pub proof fn lemma_stale_stays_stale(last: u128, now: u128, later: u128, timeout_seconds: u64)
    requires
        stale_at(last, now, timeout_seconds),
        now <= later,
    ensures
        stale_at(last, later, timeout_seconds),
{
}

} // verus!
