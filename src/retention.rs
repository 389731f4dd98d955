//! Age-based retention: which files of a directory listing are expired, how
//! many there are, which ones a cleanup removes, and how many removals succeeded.
//!
//! A listing holds one entry per regular file found by the traversal; the entry
//! is the file's last-modified time, or `None` where that time could not be read.

use vstd::prelude::*;

verus! {

/// Seconds in one day.
pub const SECS_PER_DAY: i64 = 86400;

/// A point in UTC time: whole seconds since the Unix epoch and the nanoseconds
/// past that second.
#[derive(Clone, Copy, Debug, PartialEq, Eq, Structural)]
pub struct Timestamp {
    pub secs: i64,
    pub nanos: u32,
}

/// `(a_secs, a_nanos)` lies strictly before `(b_secs, b_nanos)`.
pub open spec fn earlier(a_secs: int, a_nanos: int, b_secs: int, b_nanos: int) -> bool {
    a_secs < b_secs || (a_secs == b_secs && a_nanos < b_nanos)
}

/// The seconds part of `now - days`.
pub open spec fn cutoff_secs(now: Timestamp, days: u32) -> int {
    now.secs - SECS_PER_DAY * days
}

/// A file modified at `modified` is expired at `now` for a threshold of `days`
/// days when it was modified strictly before `now - days`.
pub open spec fn is_expired_at(modified: Timestamp, now: Timestamp, days: u32) -> bool {
    earlier(modified.secs as int, modified.nanos as int, cutoff_secs(now, days), now.nanos as int)
}

/// An entry whose modification time is unknown never counts as expired.
pub open spec fn entry_expired(entry: Option<Timestamp>, now: Timestamp, days: u32) -> bool {
    match entry {
        Some(m) => is_expired_at(m, now, days),
        None => false,
    }
}

/// The number of expired entries of a listing.
pub open spec fn expired_count(stamps: Seq<Option<Timestamp>>, now: Timestamp, days: u32) -> nat
    decreases stamps.len(),
{
    if stamps.len() == 0 {
        0
    } else {
        expired_count(stamps.drop_last(), now, days) + if entry_expired(stamps.last(), now, days) {
            1nat
        } else {
            0nat
        }
    }
}

/// The positions of the expired entries of a listing, in increasing order.
pub open spec fn expired_positions(stamps: Seq<Option<Timestamp>>, now: Timestamp, days: u32) -> Seq<int>
    decreases stamps.len(),
{
    if stamps.len() == 0 {
        Seq::empty()
    } else {
        let rest = expired_positions(stamps.drop_last(), now, days);
        if entry_expired(stamps.last(), now, days) {
            rest.push(stamps.len() - 1)
        } else {
            rest
        }
    }
}

/// The entries that a cleanup leaves behind when every deletion succeeds.
pub open spec fn retained(stamps: Seq<Option<Timestamp>>, now: Timestamp, days: u32) -> Seq<Option<Timestamp>>
    decreases stamps.len(),
{
    if stamps.len() == 0 {
        Seq::empty()
    } else {
        let rest = retained(stamps.drop_last(), now, days);
        if entry_expired(stamps.last(), now, days) {
            rest
        } else {
            rest.push(stamps.last())
        }
    }
}

/// The number of `true` values in a sequence of deletion outcomes.
pub open spec fn success_count(outcomes: Seq<bool>) -> nat
    decreases outcomes.len(),
{
    if outcomes.len() == 0 {
        0
    } else {
        success_count(outcomes.drop_last()) + if outcomes.last() {
            1nat
        } else {
            0nat
        }
    }
}

/// Decides whether a file modified at `modified` is expired at `now` for a
/// threshold of `days` days. A file modified exactly `days` days before `now`
/// is not expired.
pub fn is_expired(modified: Timestamp, now: Timestamp, days: u32) -> (r: bool)
    ensures
        r == is_expired_at(modified, now, days),
{
    // modified < now - days  <==>  modified + days < now, which cannot overflow in i128
    let shifted: i128 = modified.secs as i128 + (SECS_PER_DAY as i128) * (days as i128);
    let now_secs: i128 = now.secs as i128;
    shifted < now_secs || (shifted == now_secs && modified.nanos < now.nanos)
}

/// Decides whether one listing entry is expired; an unknown time is not.
pub fn entry_is_expired(entry: Option<Timestamp>, now: Timestamp, days: u32) -> (r: bool)
    ensures
        r == entry_expired(entry, now, days),
{
    match entry {
        Some(m) => is_expired(m, now, days),
        None => false,
    }
}

/// Counts the expired entries of a listing at `now` for a threshold of `days`
/// days: the number of files that a scan reports.
pub fn count_expired(stamps: &Vec<Option<Timestamp>>, now: Timestamp, days: u32) -> (r: usize)
    ensures
        r == expired_count(stamps@, now, days),
{
    let mut count: usize = 0;
    let mut i: usize = 0;
    while i < stamps.len()
        invariant
            i <= stamps@.len(),
            count == expired_count(stamps@.subrange(0, i as int), now, days),
            count <= i,
        decreases stamps@.len() - i,
    {
        proof {
            assert(stamps@.subrange(0, i + 1).drop_last() =~= stamps@.subrange(0, i as int));
        }
        if entry_is_expired(stamps[i], now, days) {
            count = count + 1;
        }
        i = i + 1;
    }
    proof {
        assert(stamps@.subrange(0, stamps@.len() as int) =~= stamps@);
    }
    count
}

/// The positions of the expired entries of a listing, in increasing order:
/// the files that a cleanup deletes.
pub fn expired_indices(stamps: &Vec<Option<Timestamp>>, now: Timestamp, days: u32) -> (r: Vec<usize>)
    ensures
        r@.len() == expired_positions(stamps@, now, days).len(),
        forall|k: int| 0 <= k < r@.len() ==> r@[k] as int == #[trigger] expired_positions(stamps@, now, days)[k],
{
    let mut out: Vec<usize> = Vec::new();
    let mut i: usize = 0;
    while i < stamps.len()
        invariant
            i <= stamps@.len(),
            out@.len() == expired_positions(stamps@.subrange(0, i as int), now, days).len(),
            forall|k: int| 0 <= k < out@.len() ==> out@[k] as int
                == #[trigger] expired_positions(stamps@.subrange(0, i as int), now, days)[k],
        decreases stamps@.len() - i,
    {
        proof {
            assert(stamps@.subrange(0, i + 1).drop_last() =~= stamps@.subrange(0, i as int));
        }
        if entry_is_expired(stamps[i], now, days) {
            out.push(i);
        }
        i = i + 1;
    }
    proof {
        assert(stamps@.subrange(0, stamps@.len() as int) =~= stamps@);
    }
    out
}

/// Counts the deletions that succeeded, given the outcome of each attempted
/// deletion: the number that a cleanup reports.
pub fn count_removed(outcomes: &Vec<bool>) -> (r: usize)
    ensures
        r == success_count(outcomes@),
{
    let mut count: usize = 0;
    let mut i: usize = 0;
    while i < outcomes.len()
        invariant
            i <= outcomes@.len(),
            count == success_count(outcomes@.subrange(0, i as int)),
            count <= i,
        decreases outcomes@.len() - i,
    {
        proof {
            assert(outcomes@.subrange(0, i + 1).drop_last() =~= outcomes@.subrange(0, i as int));
        }
        if outcomes[i] {
            count = count + 1;
        }
        i = i + 1;
    }
    proof {
        assert(outcomes@.subrange(0, outcomes@.len() as int) =~= outcomes@);
    }
    count
}

/// A scan counts exactly the files that a cleanup of the same listing at the
/// same instant attempts to delete; when every deletion succeeds, the cleanup
/// reports that same number.
pub proof fn scan_agrees_with_clean(stamps: Seq<Option<Timestamp>>, now: Timestamp, days: u32, outcomes: Seq<bool>)
    requires
        outcomes.len() == expired_positions(stamps, now, days).len(),
        forall|k: int| 0 <= k < outcomes.len() ==> #[trigger] outcomes[k],
    ensures
        expired_count(stamps, now, days) == expired_positions(stamps, now, days).len(),
        success_count(outcomes) == expired_count(stamps, now, days),
{
    lemma_positions_len(stamps, now, days);
    lemma_all_succeeded(outcomes);
}

proof fn lemma_positions_len(stamps: Seq<Option<Timestamp>>, now: Timestamp, days: u32)
    ensures
        expired_count(stamps, now, days) == expired_positions(stamps, now, days).len(),
    decreases stamps.len(),
{
    if stamps.len() > 0 {
        lemma_positions_len(stamps.drop_last(), now, days);
    }
}

proof fn lemma_all_succeeded(outcomes: Seq<bool>)
    requires
        forall|k: int| 0 <= k < outcomes.len() ==> #[trigger] outcomes[k],
    ensures
        success_count(outcomes) == outcomes.len(),
    decreases outcomes.len(),
{
    if outcomes.len() > 0 {
        let rest = outcomes.drop_last();
        assert forall|k: int| 0 <= k < rest.len() implies #[trigger] rest[k] by {
            assert(rest[k] == outcomes[k]);
        }
        lemma_all_succeeded(rest);
    }
}

/// Cleaning twice in a row at the same instant: once every deletion of the
/// first cleanup has succeeded and no file has been added, the second finds
/// nothing to remove.
pub proof fn clean_is_idempotent(stamps: Seq<Option<Timestamp>>, now: Timestamp, days: u32)
    ensures
        expired_count(retained(stamps, now, days), now, days) == 0,
        retained(stamps, now, days).len() + expired_count(stamps, now, days) == stamps.len(),
    decreases stamps.len(),
{
    if stamps.len() > 0 {
        let rest = retained(stamps.drop_last(), now, days);
        clean_is_idempotent(stamps.drop_last(), now, days);
        if !entry_expired(stamps.last(), now, days) {
            assert(rest.push(stamps.last()).drop_last() =~= rest);
        }
    }
}

/// The boundary of the age predicate: a file modified exactly `days` days
/// before `now` is not expired, and one modified a second earlier is.
pub proof fn expiry_boundary(now: Timestamp, days: u32)
    requires
        i64::MIN + 1 <= cutoff_secs(now, days),
    ensures
        !is_expired_at(Timestamp { secs: cutoff_secs(now, days) as i64, nanos: now.nanos }, now, days),
        is_expired_at(Timestamp { secs: (cutoff_secs(now, days) - 1) as i64, nanos: now.nanos }, now, days),
{
}

/// Relies on chrono's `From<SystemTime> for DateTime<Utc>`, applied to the
/// system clock: the current UTC time as whole seconds since the Unix epoch
/// (negative before 1970) and the nanoseconds past that second, which the
/// conversion always keeps below one second. The instant itself is the clock's.
#[verifier::external_body]
pub(crate) fn utc_now() -> (r: Timestamp)
    ensures
        r.nanos < 1_000_000_000,
{
    let t = chrono::DateTime::<chrono::Utc>::from(std::time::SystemTime::now());
    Timestamp { secs: t.timestamp(), nanos: t.timestamp_subsec_nanos() }
}

/// The outcome of scanning one listing: the instant the age threshold was
/// measured from, and how many entries were expired at that instant.
pub struct ListingScan {
    pub scanned_at: Timestamp,
    pub expired: usize,
}

/// The files that a cleanup of one listing deletes, by position in the
/// listing, and the instant the age threshold was measured from.
pub struct CleanupPlan {
    pub planned_at: Timestamp,
    pub targets: Vec<usize>,
}

/// Scans a listing against the current time: counts the files older than
/// `days` days.
pub fn scan_listing(stamps: &Vec<Option<Timestamp>>, days: u32) -> (r: ListingScan)
    ensures
        r.expired == expired_count(stamps@, r.scanned_at, days),
        r.scanned_at.nanos < 1_000_000_000,
{
    let now = utc_now();
    let expired = count_expired(stamps, now, days);
    ListingScan { scanned_at: now, expired }
}

/// Plans the cleanup of a listing against the current time: the positions of
/// the files older than `days` days.
pub fn plan_cleanup(stamps: &Vec<Option<Timestamp>>, days: u32) -> (r: CleanupPlan)
    ensures
        r.targets@.len() == expired_positions(stamps@, r.planned_at, days).len(),
        forall|k: int| 0 <= k < r.targets@.len() ==> r.targets@[k] as int
            == #[trigger] expired_positions(stamps@, r.planned_at, days)[k],
        r.planned_at.nanos < 1_000_000_000,
{
    let now = utc_now();
    let targets = expired_indices(stamps, now, days);
    CleanupPlan { planned_at: now, targets }
}

} // verus!
