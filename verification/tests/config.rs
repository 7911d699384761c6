//! Configuration defaults and the rule for hot reload.

use lunaris_notification_daemon::config::types::{default_schedule_mode, ScheduleMode};
use lunaris_notification_daemon::config::watcher::{should_reload, ChangeKind};
use lunaris_notification_daemon::config::{load_config, AppOverride, Config, DndMode};

#[test]
fn test_default_config() {
    let c = Config::default();
    assert_eq!(c.dnd.mode, DndMode::Off);
    assert_eq!(c.general.toast_duration_normal, 4000);
    assert_eq!(c.history.max_age_days, 30);
    assert!(c.history.enabled);
    assert!(c.grouping.by_app);
    assert!(c.apps.is_empty());
}

#[test]
fn test_load_missing_file() {
    let c = load_config(None);
    assert_eq!(c.dnd.mode, DndMode::Off);
}

#[test]
fn loaded_config_is_kept() {
    let mut parsed = Config::default();
    parsed.dnd.mode = DndMode::Total;
    parsed.general.max_visible_toasts = 3;
    let c = load_config(Some(parsed));
    assert_eq!(c.dnd.mode, DndMode::Total);
    assert_eq!(c.general.max_visible_toasts, 3);
}

#[test]
fn all_defaults() {
    let c = Config::default();
    assert_eq!(c.general.toast_duration_high, 8000);
    assert_eq!(c.general.max_visible_toasts, 5);
    assert!(c.dnd.expires_at.is_none());
    assert_eq!(c.dnd.schedule.start, "22:00");
    assert_eq!(c.dnd.schedule.end, "07:00");
    assert!(c.dnd.schedule.days.is_empty());
    assert_eq!(c.dnd.schedule.mode, ScheduleMode::Priority);
    assert_eq!(default_schedule_mode(), ScheduleMode::default());
    assert!(c.dnd.suppress_fullscreen);
    assert_eq!(c.history.max_count, 1000);
    assert!(c.grouping.stack_similar);
    assert_eq!(c.grouping.auto_collapse_after, 3);
    let ovr = AppOverride::default();
    assert!(ovr.enabled.is_none() && ovr.suppress.is_none() && ovr.bypass_dnd.is_none());
    assert!(ovr.priority.is_none() && ovr.toast_duration.is_none());
}

#[test]
fn app_overrides_are_found_by_name() {
    let mut c = Config::default();
    c.apps.insert("discord".into(), AppOverride { suppress: Some(true), ..Default::default() });
    c.apps.insert("firefox".into(), AppOverride { priority: Some("low".into()), ..Default::default() });
    c.apps.insert("discord".into(), AppOverride { suppress: Some(false), ..Default::default() });
    assert!(!c.apps.is_empty());
    assert_eq!(c.apps.get("discord").unwrap().suppress, Some(false));
    assert_eq!(c.apps.get("firefox").unwrap().priority.as_deref(), Some("low"));
    assert!(c.apps.get("Firefox").is_none());
}

#[test]
fn only_changes_of_the_file_reload() {
    let file = "notifications.toml".to_string();
    let ours = vec![Some("other".to_string()), Some(file.clone())];
    let others = vec![None, Some("notifications.toml.swp".to_string())];
    assert!(should_reload(ChangeKind::Modify, &ours, &file));
    assert!(should_reload(ChangeKind::Create, &ours, &file));
    assert!(should_reload(ChangeKind::Remove, &ours, &file));
    assert!(!should_reload(ChangeKind::Other, &ours, &file));
    assert!(!should_reload(ChangeKind::Modify, &others, &file));
    assert!(!should_reload(ChangeKind::Modify, &vec![], &file));
}
