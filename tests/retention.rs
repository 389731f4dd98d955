use autocleaner::retention::{
    count_expired, count_removed, entry_is_expired, expired_indices, is_expired, plan_cleanup,
    scan_listing, Timestamp, SECS_PER_DAY,
};

const NOW: i64 = 1_700_000_000;

fn days_ago(days: i64) -> Option<Timestamp> {
    Some(Timestamp { secs: NOW - days * SECS_PER_DAY, nanos: 0 })
}

fn now() -> Timestamp {
    Timestamp { secs: NOW, nanos: 0 }
}

#[test]
fn boundary_exactly_threshold_is_not_expired() {
    let modified = Timestamp { secs: NOW - 30 * SECS_PER_DAY, nanos: 0 };
    assert!(!is_expired(modified, now(), 30));
}

#[test]
fn boundary_one_second_older_is_expired() {
    let modified = Timestamp { secs: NOW - 30 * SECS_PER_DAY - 1, nanos: 0 };
    assert!(is_expired(modified, now(), 30));
}

#[test]
fn boundary_nanoseconds_decide_within_a_second() {
    let n = Timestamp { secs: NOW, nanos: 500 };
    assert!(is_expired(Timestamp { secs: NOW - SECS_PER_DAY, nanos: 499 }, n, 1));
    assert!(!is_expired(Timestamp { secs: NOW - SECS_PER_DAY, nanos: 500 }, n, 1));
    assert!(!is_expired(Timestamp { secs: NOW - SECS_PER_DAY, nanos: 501 }, n, 1));
}

#[test]
fn zero_days_expires_everything_before_now() {
    assert!(is_expired(Timestamp { secs: NOW - 1, nanos: 0 }, now(), 0));
    assert!(!is_expired(now(), now(), 0));
    assert!(!is_expired(Timestamp { secs: NOW + 5, nanos: 0 }, now(), 0));
}

#[test]
fn largest_threshold_does_not_overflow() {
    let cutoff = NOW - (u32::MAX as i64) * SECS_PER_DAY;
    assert!(!is_expired(Timestamp { secs: cutoff, nanos: 0 }, now(), u32::MAX));
    assert!(is_expired(Timestamp { secs: cutoff - 1, nanos: 0 }, now(), u32::MAX));
    assert!(is_expired(Timestamp { secs: i64::MIN, nanos: 0 }, now(), u32::MAX));
    assert!(!is_expired(Timestamp { secs: i64::MAX, nanos: 0 }, Timestamp { secs: i64::MIN, nanos: 0 }, 0));
}

#[test]
fn unreadable_time_is_never_expired() {
    assert!(!entry_is_expired(None, now(), 0));
    let stamps = vec![None, days_ago(400), None];
    assert_eq!(count_expired(&stamps, now(), 1), 1);
    assert_eq!(expired_indices(&stamps, now(), 1), vec![1]);
}

#[test]
fn empty_listing_counts_nothing() {
    let stamps: Vec<Option<Timestamp>> = Vec::new();
    assert_eq!(count_expired(&stamps, now(), 10), 0);
    assert!(expired_indices(&stamps, now(), 10).is_empty());
    assert_eq!(count_removed(&Vec::new()), 0);
}

#[test]
fn scenario_three_files_scan_clean_clean() {
    let stamps = vec![days_ago(5), days_ago(100), days_ago(300)];
    assert_eq!(count_expired(&stamps, now(), 200), 1);
    let targets = expired_indices(&stamps, now(), 200);
    assert_eq!(targets, vec![2]);
    let outcomes: Vec<bool> = targets.iter().map(|_| true).collect();
    assert_eq!(count_removed(&outcomes), 1);
    let remaining: Vec<Option<Timestamp>> = stamps
        .iter()
        .enumerate()
        .filter(|(i, _)| !targets.contains(i))
        .map(|(_, s)| *s)
        .collect();
    assert_eq!(remaining.len(), 2);
    assert!(expired_indices(&remaining, now(), 200).is_empty());
    assert_eq!(count_removed(&Vec::new()), 0);
}

#[test]
fn scan_count_equals_clean_targets() {
    let stamps = vec![days_ago(1), days_ago(50), None, days_ago(51), days_ago(49), days_ago(1000)];
    let count = count_expired(&stamps, now(), 50);
    let targets = expired_indices(&stamps, now(), 50);
    assert_eq!(count, 2);
    assert_eq!(targets, vec![3, 5]);
    assert_eq!(targets.len(), count);
    let outcomes = vec![true, true];
    assert_eq!(count_removed(&outcomes), count);
}

#[test]
fn failed_deletions_are_not_counted() {
    assert_eq!(count_removed(&vec![true, false, true, false]), 2);
    assert_eq!(count_removed(&vec![false]), 0);
}

#[test]
fn scan_listing_uses_the_clock() {
    let stamps = vec![Some(Timestamp { secs: 0, nanos: 0 }), Some(Timestamp { secs: i64::MAX, nanos: 0 }), None];
    let scan = scan_listing(&stamps, 200);
    assert_eq!(scan.expired, 1);
    assert!(scan.scanned_at.secs > 1_600_000_000);
    assert!(scan.scanned_at.nanos < 1_000_000_000);
    let plan = plan_cleanup(&stamps, 200);
    assert_eq!(plan.targets, vec![0]);
    assert!(plan.planned_at.secs >= scan.scanned_at.secs);
}
