//! Polling cache guard: the single owner of the last decoded reading and
//! its capture time, gating hardware access behind a staleness check.
//!
//! Callers never reach the transport directly. On every request the caller
//! first asks `needs_refresh`: while the cached entry is fresh (younger
//! than `REFRESH_INTERVAL`), the cached value is served with no hardware
//! access. Only a stale entry triggers one round-trip, whose outcome the
//! caller hands to `apply_refresh`: success replaces reading and timestamp
//! atomically; failure leaves both untouched, so a failed refresh is never
//! mistaken for a successful one and never resets the staleness clock.
//! Before the first successful exchange the guard serves the default
//! all-`NotConnected` record.
//!
//! Timestamps are milliseconds on the caller's monotonic clock; the
//! round-trip itself (locate, write the request, read the response) is I/O
//! and stays outside.

use vstd::prelude::*;

use crate::readings::Readings;
use crate::readings::spec_default_readings;

verus! {

/// Minimum time in milliseconds between two hardware round-trips.
pub const REFRESH_INTERVAL: u64 = 200;

/// The guard: the most recent decoded reading and the time it was captured.
/// Replaced atomically on each successful refresh, never partially updated.
pub struct CacheGuard {
    readings: Readings,
    captured_at: u64,
}

impl CacheGuard {
    /// The reading the guard currently holds.
    pub closed spec fn spec_readings(&self) -> Readings {
        self.readings
    }

    /// The time the held reading was captured, in milliseconds.
    pub closed spec fn spec_captured_at(&self) -> u64 {
        self.captured_at
    }

    /// Whether the held reading is stale at time `now`: at least
    /// `REFRESH_INTERVAL` has elapsed since it was captured.
    pub open spec fn spec_stale(&self, now: u64) -> bool {
        now >= self.spec_captured_at() + REFRESH_INTERVAL
    }

    /// A fresh guard: the default all-`NotConnected` record, captured now.
    pub fn new(now: u64) -> (r: Self)
        ensures
            r.spec_readings() == spec_default_readings(),
            r.spec_captured_at() == now,
    {
        CacheGuard { readings: Readings::default(), captured_at: now }
    }

    /// The staleness decision: true exactly when a hardware round-trip is
    /// due at time `now`. A fresh entry means the caller must serve
    /// `current()` and perform no hardware access.
    pub fn needs_refresh(&self, now: u64) -> (r: bool)
        ensures
            r == self.spec_stale(now),
    {
        if now < self.captured_at {
            false
        } else {
            now - self.captured_at >= REFRESH_INTERVAL
        }
    }

    /// The cached reading, unchanged.
    pub fn current(&self) -> (r: Readings)
        ensures
            r == self.spec_readings(),
    {
        self.readings
    }

    /// Take the outcome of one hardware round-trip. Success replaces the
    /// reading and the capture time atomically and returns the new value;
    /// failure (`None`: locator miss, transport error or rejected decode)
    /// leaves the guard untouched — reading and staleness clock both — and
    /// returns the previous cached value.
    pub fn apply_refresh(&mut self, now: u64, fetched: Option<Readings>) -> (r: Readings)
        ensures
            fetched matches Some(v) ==> final(self).spec_readings() == v
                && final(self).spec_captured_at() == now && r == v,
            fetched is None ==> *final(self) == *old(self) && r == old(self).spec_readings(),
    {
        match fetched {
            Some(v) => {
                self.readings = v;
                self.captured_at = now;
                v
            },
            None => self.readings,
        }
    }
}

/// Staleness gating, fresh side: after a refresh captured at `t1`, any call
/// strictly within the interval sees a fresh cache, so two calls less than
/// `REFRESH_INTERVAL` apart trigger at most one hardware round-trip.
pub proof fn lemma_fresh_within_interval(g: CacheGuard, t1: u64, t2: u64)
    requires
        g.spec_captured_at() == t1,
        t1 <= t2 < t1 + REFRESH_INTERVAL,
    ensures
        !g.spec_stale(t2),
{
}

/// Staleness gating, stale side: once a full interval has elapsed since the
/// capture, the cache is stale, so two calls `REFRESH_INTERVAL` or more
/// apart trigger a round-trip each.
pub proof fn lemma_stale_after_interval(g: CacheGuard, t1: u64, t2: u64)
    requires
        g.spec_captured_at() == t1,
        t2 >= t1 + REFRESH_INTERVAL,
    ensures
        g.spec_stale(t2),
{
}

} // verus!
