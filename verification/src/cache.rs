//! Time-bounded cache for the externally sourced star count. The entry is
//! Fresh while its age is under the TTL and Stale afterwards; a read in the
//! Fresh window is served from the entry with no upstream call, and only a
//! successful refresh moves the entry back to Fresh. A failed refresh leaves
//! the entry untouched, so the last successfully fetched value keeps serving.

use vstd::prelude::*;
use crate::errors::UpstreamError;

verus! {

/// Age bound of a Fresh entry, in seconds (15 minutes).
pub const STAR_TTL_SECONDS: i64 = 900;

/// The process-wide cache entry: the star count most recently fetched with
/// success, and the time of that fetch. Initialized at process start to a
/// zero value with the epoch timestamp, so the first read finds it stale.
#[derive(Debug)]
pub struct StarCache {
    /// Value of the most recent successful fetch.
    pub star_count: i32,
    /// Unix time, in seconds, of the most recent successful fetch.
    pub last_fetched: i64,
}

impl StarCache {
    /// The entry is Fresh at time `now` while its age is under the TTL.
    /// A clock that moved backwards makes the age negative, which still
    /// counts as Fresh.
    pub open spec fn is_fresh(&self, now: i64) -> bool {
        now - self.last_fetched < STAR_TTL_SECONDS
    }

    /// What a read at time `now` serves without an upstream call: the cached
    /// value while Fresh, nothing while Stale.
    pub open spec fn probe_result(&self, now: i64) -> Option<i32> {
        if self.is_fresh(now) {
            Some(self.star_count)
        } else {
            None
        }
    }

    /// The entry as initialized at process start: a zero value stamped with
    /// the epoch, already stale against any present-day clock, so the first
    /// read triggers a fetch rather than serving the zero for a TTL window.
    pub fn new() -> (c: StarCache)
        ensures
            c.star_count == 0,
            c.last_fetched == 0,
    {
        StarCache { star_count: 0, last_fetched: 0 }
    }

    /// Read-only probe: returns the cached value exactly when the entry is
    /// Fresh at `now`; a `None` tells the caller a refresh is due.
    pub fn probe(&self, now: i64) -> (r: Option<i32>)
        ensures
            r == self.probe_result(now),
    {
        let age: i128 = now as i128 - self.last_fetched as i128;
        if age < STAR_TTL_SECONDS as i128 {
            Some(self.star_count)
        } else {
            None
        }
    }

    /// Exclusive overwrite of both fields with a successful reading; the one
    /// mutation a refresh performs.
    pub fn store(&mut self, stars: i32, now: i64)
        ensures
            final (self).star_count == stars,
            final (self).last_fetched == now,
    {
        self.star_count = stars;
        self.last_fetched = now;
    }

    /// Outcome of a refresh attempt at time `now`: a successful fetch
    /// overwrites the entry and is served back; a failed fetch is reported
    /// as a server error and leaves the entry untouched.
    pub fn apply_refresh(&mut self, fetched: Result<i32, UpstreamError>, now: i64) -> (r: Result<
        i32,
        UpstreamError,
    >)
        ensures
            match fetched {
                Ok(v) => {
                    &&& final (self).star_count == v
                    &&& final (self).last_fetched == now
                    &&& r == Ok::<i32, UpstreamError>(v)
                },
                Err(e) => {
                    &&& *final (self) == *old(self)
                    &&& r == Err::<i32, UpstreamError>(e)
                },
            },
    {
        match fetched {
            Ok(v) => {
                self.store(v, now);
                Ok(v)
            },
            Err(e) => Err(e),
        }
    }
}

/// Reads the current wall-clock time for cache decisions.
///
/// Relies on `chrono::Utc::now` (via `DateTime::timestamp`) for the number of
/// non-leap seconds since the Unix epoch. The result depends on the clock, so
/// nothing is promised of it.
#[verifier::external_body]
pub fn current_unix_seconds() -> (now: i64) {
    chrono::Utc::now().timestamp()
}

/// One step of the metric read: serves the cached value if the entry is Fresh
/// now; a `None` tells the caller (who owns the network) to fetch upstream
/// and hand the outcome to `apply_refresh`.
pub fn read_stars(cache: &StarCache) -> (r: Option<i32>)
    ensures
        r is Some ==> r == Some(cache.star_count),
{
    let now = current_unix_seconds();
    cache.probe(now)
}

/// Law: a value stored at time `t` keeps serving, unchanged and without any
/// upstream call, for every read strictly inside the TTL window — so two
/// reads in that window both return the stored value.
pub proof fn lemma_fresh_reads_consistent(c: StarCache, v: i32, t: i64, t1: i64, t2: i64)
    requires
        c.star_count == v,
        c.last_fetched == t,
        t1 - t < STAR_TTL_SECONDS,
        t2 - t < STAR_TTL_SECONDS,
    ensures
        c.probe_result(t1) == Some(v),
        c.probe_result(t2) == Some(v),
        c.probe_result(t1) == c.probe_result(t2),
{
}

} // verus!
