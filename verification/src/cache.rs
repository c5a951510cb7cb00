//! The cache of the latest net export: one value and the time it was
//! written, replaced together and read together.
//!
//! Time is a reading of a monotonic clock in nanoseconds since a fixed
//! origin that the caller chooses; the cache never looks at a clock itself.

use crate::flow::POSITIVE_ZERO;
use vstd::prelude::*;

verus! {

/// Nanoseconds in one second.
pub const NANOS_PER_SEC: u64 = 1_000_000_000;

/// What the cache holds.
#[derive(Clone, Copy, Debug, PartialEq, Eq)]
pub struct ExportSnapshot {
    /// The net export at the last successful fetch, as the bit pattern of a
    /// double; positive zero before the first one.
    pub value: u64,
    /// When the last successful fetch was published; `None` before the
    /// first one.
    pub last_update: Option<u64>,
}

/// What a reader gets.
#[derive(Clone, Copy, Debug, PartialEq, Eq)]
pub struct ExportReading {
    /// The cached net export, as the bit pattern of a double.
    pub curr_export: u64,
    /// Whole seconds since the cached value was published; `None` while
    /// nothing has been published.
    pub last_update: Option<u64>,
}

/// The single-slot cache. Only [`ExportCache::write`] changes it, and it
/// takes the cache by exclusive reference: no read can overlap a write, so
/// whoever shares a cache between a writer and readers has to guard it.
pub struct ExportCache {
    snapshot: ExportSnapshot,
}

/// The content of a cache that was never written.
pub open spec fn initial_snapshot() -> ExportSnapshot {
    ExportSnapshot { value: POSITIVE_ZERO, last_update: None }
}

/// The content of a cache after `value` was written at `now`.
pub open spec fn written(value: u64, now: u64) -> ExportSnapshot {
    ExportSnapshot { value, last_update: Some(now) }
}

/// Whole seconds from `since` to `now`; zero if `now` lies before `since`.
pub open spec fn elapsed_secs(since: u64, now: u64) -> u64 {
    if now >= since {
        ((now - since) / (NANOS_PER_SEC as int)) as u64
    } else {
        0
    }
}

/// What a reader sees of `snapshot` at `now`.
pub open spec fn reading(snapshot: ExportSnapshot, now: u64) -> ExportReading {
    ExportReading {
        curr_export: snapshot.value,
        last_update: match snapshot.last_update {
            Some(since) => Some(elapsed_secs(since, now)),
            None => None,
        },
    }
}

/// Time that passes never makes the elapsed seconds fewer.
pub proof fn law_elapsed_never_decreases(since: u64, earlier: u64, later: u64)
    requires
        earlier <= later,
    ensures
        elapsed_secs(since, earlier) <= elapsed_secs(since, later),
{
    if earlier >= since {
        let per_sec = NANOS_PER_SEC as int;
        assert((earlier - since) / per_sec <= (later - since) / per_sec) by (nonlinear_arith)
            requires
                0 <= earlier - since <= later - since,
                per_sec == 1_000_000_000,
        ;
    }
}

impl View for ExportCache {
    type V = ExportSnapshot;

    closed spec fn view(&self) -> ExportSnapshot {
        self.snapshot
    }
}

impl ExportCache {
    /// A cache that holds positive zero and no time of update.
    pub fn new() -> (cache: ExportCache)
        ensures
            cache@ == initial_snapshot(),
    {
        ExportCache { snapshot: ExportSnapshot { value: POSITIVE_ZERO, last_update: None } }
    }

    /// Replaces value and time of update together.
    pub fn write(&mut self, value: u64, now: u64)
        ensures
            final(self)@ == written(value, now),
    {
        self.snapshot = ExportSnapshot { value, last_update: Some(now) };
    }

    /// The cached value with the whole seconds since it was written, both
    /// taken from the same write.
    pub fn read_snapshot(&self, now: u64) -> (seen: ExportReading)
        ensures
            seen == reading(self@, now),
            self@.last_update is None ==> seen.last_update is None,
            self@.last_update matches Some(since) ==> seen.last_update == Some(
                elapsed_secs(since, now),
            ),
    {
        let last_update = match self.snapshot.last_update {
            Some(since) => Some(
                if now >= since {
                    (now - since) / NANOS_PER_SEC
                } else {
                    0
                },
            ),
            None => None,
        };
        ExportReading { curr_export: self.snapshot.value, last_update }
    }

    /// The content of the cache as it is stored.
    pub fn snapshot(&self) -> (content: ExportSnapshot)
        ensures
            content == self@,
    {
        self.snapshot
    }
}

} // verus!
