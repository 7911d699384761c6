//! Focus mode.

use lunaris_notification_daemon::dnd::FocusSuppression;

#[test]
fn default_is_inactive() {
    let f = FocusSuppression::default();
    assert!(!f.is_active());
    assert!(!f.is_suppressed("any"));
}

#[test]
fn activate_sets_state() {
    let mut f = FocusSuppression::default();
    f.activate("proj-1".into(), vec!["slack".into(), "discord".into()]);
    assert!(f.is_active());
    assert_eq!(f.suppressed_app_count(), 2);
}

#[test]
fn is_suppressed_exact() {
    let mut f = FocusSuppression::default();
    f.activate("p".into(), vec!["slack".into(), "discord".into()]);
    assert!(f.is_suppressed("slack"));
    assert!(f.is_suppressed("discord"));
    assert!(!f.is_suppressed("signal"));
}

#[test]
fn is_suppressed_case_insensitive() {
    let mut f = FocusSuppression::default();
    f.activate("p".into(), vec!["Slack".into()]);
    assert!(f.is_suppressed("slack"));
    assert!(f.is_suppressed("SLACK"));
    assert!(f.is_suppressed("Slack"));
}

#[test]
fn deactivate_clears() {
    let mut f = FocusSuppression::default();
    f.activate("p".into(), vec!["slack".into()]);
    f.deactivate();
    assert!(!f.is_active());
    assert!(!f.is_suppressed("slack"));
}

#[test]
fn inactive_never_suppresses() {
    let f = FocusSuppression::default();
    assert!(!f.is_suppressed("slack"));
}

#[test]
fn empty_suppress_list() {
    let mut f = FocusSuppression::default();
    f.activate("p".into(), vec![]);
    assert!(f.is_active());
    assert!(!f.is_suppressed("any"));
}

#[test]
fn reactivate_replaces() {
    let mut f = FocusSuppression::default();
    f.activate("p1".into(), vec!["slack".into()]);
    f.activate("p2".into(), vec!["teams".into()]);
    assert!(!f.is_suppressed("slack"));
    assert!(f.is_suppressed("teams"));
}

#[test]
fn doubled_apps_count_once() {
    let mut f = FocusSuppression::default();
    f.activate("p".into(), vec!["Slack".into(), "slack".into(), "ÄPP".into()]);
    assert_eq!(f.suppressed_app_count(), 2);
    assert!(f.is_suppressed("äpp"));
    f.deactivate();
    assert_eq!(f.suppressed_app_count(), 0);
}
