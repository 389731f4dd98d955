use autocleaner::launch::{parse_launch, role_argument, trim_dashes, Launch, Role};

fn args(a: &[&str]) -> Vec<String> {
    a.iter().map(|s| s.to_string()).collect()
}

#[test]
fn no_argument_bootstraps() {
    assert_eq!(parse_launch(&args(&["autocleaner"])), Launch::Bootstrap);
    assert_eq!(parse_launch(&Vec::new()), Launch::Bootstrap);
}

#[test]
fn roles_with_and_without_dashes() {
    assert_eq!(parse_launch(&args(&["x", "gui"])), Launch::Editor);
    assert_eq!(parse_launch(&args(&["x", "--gui"])), Launch::Editor);
    assert_eq!(parse_launch(&args(&["x", "-tray"])), Launch::Tray);
    assert_eq!(parse_launch(&args(&["x", "--tray-startup", "ignored"])), Launch::TrayStartup);
}

#[test]
fn unknown_argument_is_ignored() {
    assert_eq!(parse_launch(&args(&["x", "---"])), Launch::Ignore);
    assert_eq!(parse_launch(&args(&["x", "GUI"])), Launch::Ignore);
    assert_eq!(parse_launch(&args(&["x", "gui-"])), Launch::Ignore);
}

#[test]
fn trim_only_leading_dashes() {
    assert_eq!(trim_dashes("--a-b-"), "a-b-");
    assert_eq!(trim_dashes("----"), "");
    assert_eq!(trim_dashes("x"), "x");
}

#[test]
fn locks_and_spawns() {
    assert_eq!(Launch::Editor.lock_name(), Some("gui.lock"));
    assert_eq!(Launch::Tray.lock_name(), Some("tray.lock"));
    assert_eq!(Launch::TrayStartup.lock_name(), Some("tray.lock"));
    assert_eq!(Launch::Bootstrap.lock_name(), None);
    assert_eq!(Launch::Ignore.lock_name(), None);
    assert!(Launch::TrayStartup.scans_first());
    assert!(!Launch::Tray.scans_first());
    assert!(Launch::Bootstrap.records_exec_path());
    assert_eq!(Launch::Bootstrap.spawned_roles(), vec![Role::Tray, Role::Editor]);
    assert!(Launch::Editor.spawned_roles().is_empty());
    assert_eq!(Launch::TrayStartup.role(), Some(Role::Tray));
    assert_eq!(Launch::Ignore.role(), None);
    assert_eq!(role_argument(Role::Editor), "gui");
    assert_eq!(role_argument(Role::Tray), "tray");
}
