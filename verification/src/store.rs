//! The cache entry and the rule by which it is refreshed.
//!
//! One entry holds the last snapshot and the time of the refresh that made
//! it. Refreshing is driven by a timer and never by a request: at each tick
//! the caller asks [`DB::is_stale`], runs a refresh where the answer is yes,
//! and hands what it fetched to [`DB::refresh`]; a request only reads, through
//! [`DB::get_links`], whatever the age of the snapshot. Time is a count of
//! seconds on a clock that does not go back.

use vstd::prelude::*;
use crate::aggregate::{aggregate, aggregation, consistent, Harvest};
use crate::error::UpstreamFetchError;
use crate::model::{Cache, CacheView};

verus! {

/// The cache entry: the snapshot that is served, when it was made, and how
/// long it stays fresh.
#[derive(Debug)]
pub struct DB {
    cache: Cache,
    cache_t: Option<u64>,
    cache_ttl: u64,
}

/// What a [`DB`] is in contracts.
#[verifier::ext_equal]
pub struct DbView {
    /// The snapshot that is served.
    pub cache: CacheView,
    /// When the snapshot was made; `None` as long as no refresh has succeeded.
    pub last_refreshed: Option<u64>,
    /// The age, in seconds, beyond which the snapshot is stale.
    pub cache_ttl: u64,
}

/// Whether the entry is stale at the time `now`: it was never refreshed, or
/// more than `cache_ttl` seconds have passed since it was.
pub open spec fn is_stale_at(db: DbView, now: u64) -> bool {
    match db.last_refreshed {
        None => true,
        Some(at) => now - at > db.cache_ttl,
    }
}

/// Whether the time `after` is not earlier than the time `before`, where
/// `None`, the time of an entry that was never refreshed, is earlier than
/// every other.
pub open spec fn not_earlier(after: Option<u64>, before: Option<u64>) -> bool {
    match before {
        None => true,
        Some(b) => after matches Some(a) && b <= a,
    }
}

/// The time of the last refresh after one that succeeded at `now`: `now`,
/// unless the entry already holds a later time, which then stays.
pub open spec fn stamped(last_refreshed: Option<u64>, now: u64) -> u64 {
    match last_refreshed {
        Some(at) if at > now => at,
        _ => now,
    }
}

/// The entry after a refresh that ended at `now` with `outcome`: with the new
/// snapshot and its time where the refresh succeeded, unchanged where it
/// failed.
pub open spec fn refreshed(
    db: DbView,
    outcome: Result<CacheView, UpstreamFetchError>,
    now: u64,
) -> DbView {
    match outcome {
        Ok(cache) => DbView {
            cache,
            last_refreshed: Some(stamped(db.last_refreshed, now)),
            cache_ttl: db.cache_ttl,
        },
        Err(_) => db,
    }
}

/// The time of the last refresh never goes back, whatever a refresh comes to
/// and whatever the clock says.
pub proof fn lemma_refresh_never_goes_back(
    db: DbView,
    outcome: Result<CacheView, UpstreamFetchError>,
    now: u64,
)
    ensures
        not_earlier(refreshed(db, outcome, now).last_refreshed, db.last_refreshed),
{
}

/// A refresh that fails leaves the entry as it was: the same snapshot is
/// served, with the same time, and the entry is as stale as before, so that
/// the next tick tries again.
pub proof fn lemma_failed_refresh_changes_nothing(db: DbView, error: UpstreamFetchError, now: u64)
    ensures
        refreshed(db, Err(error), now) == db,
        forall|later: u64| is_stale_at(refreshed(db, Err(error), now), later) == is_stale_at(db, later),
{
}

/// A refresh that succeeds replaces tags and items together by those of the
/// new snapshot, also where failed refreshes came before it, and nothing of
/// the earlier snapshot is left.
pub proof fn lemma_successful_refresh_replaces_all(
    db: DbView,
    error: UpstreamFetchError,
    failed_at: u64,
    cache: CacheView,
    now: u64,
)
    ensures
        refreshed(db, Ok(cache), now).cache == cache,
        refreshed(refreshed(db, Err(error), failed_at), Ok(cache), now) == refreshed(
            db,
            Ok(cache),
            now,
        ),
{
}

/// After a refresh that succeeds at a time not before the last one, the entry
/// carries that time and is fresh at it.
pub proof fn lemma_successful_refresh_is_fresh(db: DbView, cache: CacheView, now: u64)
    requires
        not_earlier(Some(now), db.last_refreshed),
    ensures
        refreshed(db, Ok(cache), now).last_refreshed == Some(now),
        !is_stale_at(refreshed(db, Ok(cache), now), now),
{
}

impl View for DB {
    type V = DbView;

    closed spec fn view(&self) -> DbView {
        DbView { cache: self.cache@, last_refreshed: self.cache_t, cache_ttl: self.cache_ttl }
    }
}

impl DB {
    #[verifier::type_invariant]
    spec fn holds_consistent_snapshot(&self) -> bool {
        consistent(self.cache@)
    }

    /// The entry as it is at process start: it holds the empty snapshot and
    /// was never refreshed, so that it is stale at every time and the first
    /// tick refreshes it.
    pub fn default(cache_ttl: u64) -> (db: DB)
        ensures
            db@ == (DbView {
                cache: CacheView { tags: Seq::empty(), items: Seq::empty() },
                last_refreshed: None,
                cache_ttl,
            }),
    {
        DB { cache: Cache::empty(), cache_t: None, cache_ttl }
    }

    /// The age, in seconds, beyond which the snapshot is stale.
    pub fn cache_ttl(&self) -> (ttl: u64)
        ensures
            ttl == self@.cache_ttl,
    {
        self.cache_ttl
    }

    /// When the snapshot was made, or `None` where no refresh has succeeded
    /// yet.
    pub fn last_refreshed(&self) -> (at: Option<u64>)
        ensures
            at == self@.last_refreshed,
    {
        self.cache_t
    }

    /// Whether the entry is stale at the time `now` and a refresh is due.
    pub fn is_stale(&self, now: u64) -> (stale: bool)
        ensures
            stale == is_stale_at(self@, now),
    {
        match self.cache_t {
            None => true,
            Some(at) => now > at && now - at > self.cache_ttl,
        }
    }

    /// Answers a request: a copy of the snapshot of the last refresh that
    /// succeeded, whatever its age. The entry is not touched.
    pub fn get_links(&self) -> (snapshot: Cache)
        ensures
            snapshot@ == self@.cache,
            consistent(snapshot@),
    {
        proof {
            use_type_invariant(self);
        }
        self.cache.clone()
    }

    /// Takes in what a refresh that ended at `now` came to.
    ///
    /// Where the fetching succeeded, snapshot and time are replaced together:
    /// the snapshot by the one that [`aggregate`] makes of the harvest, the
    /// time by `now` (an entry that already holds a later time keeps it).
    /// Where the fetching failed, the entry stays exactly as it was.
    pub fn refresh(&mut self, outcome: Result<Harvest, UpstreamFetchError>, now: u64)
        ensures
            final(self)@ == refreshed(old(self)@, aggregation(outcome), now),
            not_earlier(final(self)@.last_refreshed, old(self)@.last_refreshed),
    {
        match aggregate(&outcome) {
            Ok(cache) => {
                let at = match self.cache_t {
                    Some(last) if last > now => last,
                    _ => now,
                };
                self.cache = cache;
                self.cache_t = Some(at);
            },
            Err(_) => {},
        }
    }
}

} // verus!
