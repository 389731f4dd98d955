//! The silent scan of all tracked folders that precedes the tray agent when it
//! starts with the user's session, and the notice it leads to.

use vstd::prelude::*;
use crate::config::{Settings, TrackedFolder};
use crate::retention::{count_expired, expired_count, utc_now, Timestamp};

verus! {

/// The total number of entries of the first `n` listings.
pub open spec fn total_entries(listings: Seq<Vec<Option<Timestamp>>>, n: int) -> int
    decreases n,
{
    if n <= 0 {
        0
    } else {
        total_entries(listings, n - 1) + listings[n - 1]@.len()
    }
}

/// The number of expired files over the first `n` folders, where the listing
/// of folder `i` is `listings[i]`, each measured against that folder's own
/// threshold.
pub open spec fn total_expired(
    folders: Seq<TrackedFolder>,
    listings: Seq<Vec<Option<Timestamp>>>,
    now: Timestamp,
    n: int,
) -> int
    decreases n,
{
    if n <= 0 {
        0
    } else {
        total_expired(folders, listings, now, n - 1) + expired_count(listings[n - 1]@, now, folders[n - 1].days)
    }
}

proof fn lemma_expired_at_most_len(stamps: Seq<Option<Timestamp>>, now: Timestamp, days: u32)
    ensures
        expired_count(stamps, now, days) <= stamps.len(),
    decreases stamps.len(),
{
    if stamps.len() > 0 {
        lemma_expired_at_most_len(stamps.drop_last(), now, days);
    }
}

proof fn lemma_total_bounded(
    folders: Seq<TrackedFolder>,
    listings: Seq<Vec<Option<Timestamp>>>,
    now: Timestamp,
    n: int,
)
    requires
        0 <= n <= folders.len(),
        n <= listings.len(),
    ensures
        0 <= total_expired(folders, listings, now, n) <= total_entries(listings, n),
        0 <= total_entries(listings, n),
    decreases n,
{
    if n > 0 {
        lemma_total_bounded(folders, listings, now, n - 1);
        lemma_expired_at_most_len(listings[n - 1]@, now, folders[n - 1].days);
    }
}

/// Counts the expired files over all tracked folders at `now`: `listings[i]`
/// is the listing of `folders[i]`, which is measured against its own threshold.
pub fn count_expired_from_folders(
    folders: &Vec<TrackedFolder>,
    listings: &Vec<Vec<Option<Timestamp>>>,
    now: Timestamp,
) -> (r: usize)
    requires
        listings@.len() == folders@.len(),
        total_entries(listings@, listings@.len() as int) <= usize::MAX,
    ensures
        r == total_expired(folders@, listings@, now, folders@.len() as int),
{
    let mut total: usize = 0;
    let mut i: usize = 0;
    while i < folders.len()
        invariant
            i <= folders@.len(),
            listings@.len() == folders@.len(),
            total_entries(listings@, listings@.len() as int) <= usize::MAX,
            total == total_expired(folders@, listings@, now, i as int),
        decreases folders@.len() - i,
    {
        proof {
            lemma_total_bounded(folders@, listings@, now, i + 1);
            lemma_entries_monotone(listings@, i + 1, listings@.len() as int);
        }
        let n = count_expired(&listings[i], now, folders[i].days);
        total = total + n;
        i = i + 1;
    }
    total
}

proof fn lemma_entries_monotone(listings: Seq<Vec<Option<Timestamp>>>, m: int, n: int)
    requires
        0 <= m <= n <= listings.len(),
    ensures
        total_entries(listings, m) <= total_entries(listings, n),
    decreases n - m,
{
    if m < n {
        lemma_entries_monotone(listings, m, n - 1);
    }
}

/// The outcome of the silent scan: when it measured, how many expired files
/// it found, and the executable path that the notice points to.
pub struct ScanSummary {
    pub scanned_at: Timestamp,
    pub expired: usize,
    pub exe_path: String,
}

impl ScanSummary {
    /// A notice is shown only when something expired was found.
    pub fn should_notify(&self) -> (r: bool)
        ensures
            r == (self.expired > 0),
    {
        self.expired > 0
    }
}

/// Scans all tracked folders against the current time. The notice points to
/// the saved executable path, or to `current_exe` where none was saved.
pub fn scan_and_notify(
    folders: &Vec<TrackedFolder>,
    listings: &Vec<Vec<Option<Timestamp>>>,
    settings: &Settings,
    current_exe: String,
) -> (r: ScanSummary)
    requires
        listings@.len() == folders@.len(),
        total_entries(listings@, listings@.len() as int) <= usize::MAX,
    ensures
        r.expired == total_expired(folders@, listings@, r.scanned_at, folders@.len() as int),
        r.scanned_at.nanos < 1_000_000_000,
        r.exe_path == match settings.exec_path {
            Some(p) => p,
            None => current_exe,
        },
{
    let exe_path = match crate::config::get_exec_path(settings) {
        Some(p) => p,
        None => current_exe,
    };
    let now = utc_now();
    let expired = count_expired_from_folders(folders, listings, now);
    ScanSummary { scanned_at: now, expired, exe_path }
}

} // verus!
