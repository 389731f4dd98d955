use autocleaner::config::{FolderConfig, Settings, TrackedFolder};
use autocleaner::editor::AutoCleanerApp;
use autocleaner::notifier::{count_expired_from_folders, scan_and_notify};
use autocleaner::retention::{Timestamp, SECS_PER_DAY};

#[test]
fn add_folder_logs_added_or_already_tracked() {
    let mut app = AutoCleanerApp::new(FolderConfig::new(), false);
    assert!(app.add_folder("/data".to_string()));
    assert!(!app.add_folder("/data".to_string()));
    assert_eq!(app.config.folders.len(), 1);
    assert_eq!(app.log, "\u{2714} Added: /data\n\u{26a0} Already tracked: /data\n");
}

#[test]
fn scan_and_removal_lines() {
    let mut app = AutoCleanerApp::new(FolderConfig::new(), false);
    app.add_folder("/data".to_string());
    app.clear_log();
    assert_eq!(app.log, "");
    app.record_scan(0, 3);
    app.record_removal(0, 12);
    assert_eq!(
        app.log,
        "\u{1f50d} 3 files older than 200 days in /data\n\u{1f5d1} Removed 12 files older than 200 days from /data\n"
    );
}

#[test]
fn untrack_and_startup_lines() {
    let mut app = AutoCleanerApp::new(FolderConfig::new(), false);
    app.add_folder("/a".to_string());
    app.add_folder("/b".to_string());
    app.clear_log();
    let r = app.untrack(0);
    assert_eq!(r.path, "/a");
    assert_eq!(app.config.folders.len(), 1);
    app.set_run_at_startup(true);
    assert!(app.run_at_startup);
    app.set_run_at_startup(false);
    assert_eq!(
        app.log,
        "\u{274c} Folder removed from tracking: /a\n\u{1f501} Startup enabled\n\u{1f501} Startup disabled\n"
    );
}

fn ago(now: i64, days: i64) -> Option<Timestamp> {
    Some(Timestamp { secs: now - days * SECS_PER_DAY, nanos: 0 })
}

#[test]
fn folders_use_their_own_threshold() {
    let now = 1_700_000_000;
    let folders = vec![
        TrackedFolder { path: "/a".to_string(), days: 10 },
        TrackedFolder { path: "/b".to_string(), days: 100 },
    ];
    let listings = vec![vec![ago(now, 5), ago(now, 50), ago(now, 500)], vec![ago(now, 50), ago(now, 500), None]];
    assert_eq!(count_expired_from_folders(&folders, &listings, Timestamp { secs: now, nanos: 0 }), 3);
    assert_eq!(count_expired_from_folders(&Vec::new(), &Vec::new(), Timestamp { secs: now, nanos: 0 }), 0);
}

#[test]
fn silent_scan_points_to_saved_or_current_exe() {
    let folders = vec![TrackedFolder { path: "/a".to_string(), days: 1 }];
    let listings = vec![vec![Some(Timestamp { secs: 0, nanos: 0 }), None]];
    let saved = Settings { exec_path: Some("C:\\saved.exe".to_string()) };
    let s = scan_and_notify(&folders, &listings, &saved, "C:\\current.exe".to_string());
    assert_eq!(s.expired, 1);
    assert!(s.should_notify());
    assert_eq!(s.exe_path, "C:\\saved.exe");
    let none = Settings { exec_path: None };
    let empty = vec![Vec::new()];
    let s = scan_and_notify(&folders, &empty, &none, "C:\\current.exe".to_string());
    assert_eq!(s.expired, 0);
    assert!(!s.should_notify());
    assert_eq!(s.exe_path, "C:\\current.exe");
}
