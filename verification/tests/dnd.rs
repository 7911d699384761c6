//! DND decisions and schedules.

use lunaris_notification_daemon::config::types::ScheduleMode;
use lunaris_notification_daemon::config::{AppOverride, DndConfig, DndMode, DndSchedule};
use lunaris_notification_daemon::dbus::server::{Notification, Priority};
use lunaris_notification_daemon::clock::{LocalTime, Timestamp};
use lunaris_notification_daemon::dnd::state::{
    effective_mode, effective_mode_at, is_alarm_category, is_expired, is_in_schedule,
    is_in_schedule_at, is_in_schedule_when, is_past, resolve_mode, EffectiveMode,
};
use lunaris_notification_daemon::dnd::{DndState, SuppressResult};

fn make_notification(app: &str, priority: Priority) -> Notification {
    Notification {
        id: 1,
        app_name: app.into(),
        summary: "test".into(),
        body: "".into(),
        app_icon: "".into(),
        actions: vec![],
        priority,
        urgency: 1,
        category: "".into(),
        timestamp: "2026-04-09T12:00:00Z".into(),
        expire_timeout: -1,
        read: false,
    }
}

fn default_dnd() -> DndConfig {
    DndConfig::default()
}


#[test]
fn test_dnd_off_allows_all() {
    let state = DndState::default();
    let config = default_dnd();
    let n = make_notification("app", Priority::Normal);
    assert_eq!(state.should_suppress(&n, &config, None), SuppressResult::Allow);
}

#[test]
fn test_dnd_on_suppresses_normal() {
    let state = DndState::default();
    let mut config = default_dnd();
    config.mode = DndMode::Priority;
    let n = make_notification("app", Priority::Normal);
    assert_eq!(state.should_suppress(&n, &config, None), SuppressResult::Suppress);
}

#[test]
fn test_dnd_on_allows_critical() {
    let state = DndState::default();
    let mut config = default_dnd();
    config.mode = DndMode::Priority;
    let n = make_notification("app", Priority::Critical);
    assert_eq!(state.should_suppress(&n, &config, None), SuppressResult::Allow);
}

#[test]
fn test_dnd_on_allows_always_allow_app() {
    let state = DndState::default();
    let mut config = default_dnd();
    config.mode = DndMode::Priority;
    config.always_allow = vec!["phone".into()];
    let n = make_notification("phone", Priority::Normal);
    assert_eq!(state.should_suppress(&n, &config, None), SuppressResult::Allow);
}

#[test]
fn test_always_suppress_overrides_dnd_off() {
    let state = DndState::default();
    let mut config = default_dnd();
    config.always_suppress = vec!["spammy-app".into()];
    let n = make_notification("spammy-app", Priority::Normal);
    assert_eq!(state.should_suppress(&n, &config, None), SuppressResult::Suppress);
}

#[test]
fn test_dnd_total_drops_normal() {
    let state = DndState::default();
    let mut config = default_dnd();
    config.mode = DndMode::Total;
    let n = make_notification("app", Priority::Normal);
    assert_eq!(state.should_suppress(&n, &config, None), SuppressResult::Drop);
}

#[test]
fn test_dnd_total_drops_critical() {
    let state = DndState::default();
    let mut config = default_dnd();
    config.mode = DndMode::Total;
    let n = make_notification("app", Priority::Critical);
    assert_eq!(state.should_suppress(&n, &config, None), SuppressResult::Drop);
}

#[test]
fn test_dnd_total_respects_always_allow() {
    let state = DndState::default();
    let mut config = default_dnd();
    config.mode = DndMode::Total;
    config.always_allow = vec!["phone".into()];
    let n = make_notification("phone", Priority::Normal);
    assert_eq!(state.should_suppress(&n, &config, None), SuppressResult::Allow);
}

#[test]
fn test_dnd_alarms_allows_alarm_category() {
    let state = DndState::default();
    let mut config = default_dnd();
    config.mode = DndMode::Alarms;
    let mut n = make_notification("app", Priority::Normal);
    n.category = "alarm.clock".into();
    assert_eq!(state.should_suppress(&n, &config, None), SuppressResult::Allow);
}

#[test]
fn test_dnd_alarms_suppresses_non_alarm() {
    let state = DndState::default();
    let mut config = default_dnd();
    config.mode = DndMode::Alarms;
    let n = make_notification("app", Priority::Normal);
    assert_eq!(state.should_suppress(&n, &config, None), SuppressResult::Suppress);
}

#[test]
fn test_dnd_expires_at_past_equals_off() {
    let state = DndState::default();
    let mut config = default_dnd();
    config.mode = DndMode::Total;
    // One second ago.
    config.expires_at = Some("2000-01-01T00:00:00Z".into());
    let n = make_notification("app", Priority::Normal);
    assert_eq!(state.should_suppress(&n, &config, None), SuppressResult::Allow);
}

#[test]
fn test_dnd_expires_at_future_keeps_mode() {
    let state = DndState::default();
    let mut config = default_dnd();
    config.mode = DndMode::Total;
    config.expires_at = Some("2099-12-31T23:59:59Z".into());
    let n = make_notification("app", Priority::Normal);
    assert_eq!(state.should_suppress(&n, &config, None), SuppressResult::Drop);
}

#[test]
fn test_dnd_expires_at_invalid_does_not_flip() {
    let state = DndState::default();
    let mut config = default_dnd();
    config.mode = DndMode::Total;
    config.expires_at = Some("not-a-date".into());
    let n = make_notification("app", Priority::Normal);
    // Invalid TTL kept as-is (fail-safe: stays silenced, user can fix).
    assert_eq!(state.should_suppress(&n, &config, None), SuppressResult::Drop);
}

#[test]
fn test_app_enabled_false_drops() {
    let state = DndState::default();
    let config = default_dnd();
    let ovr = AppOverride {
        enabled: Some(false),
        ..Default::default()
    };
    let n = make_notification("blocked", Priority::Normal);
    assert_eq!(
        state.should_suppress(&n, &config, Some(&ovr)),
        SuppressResult::Drop
    );
}

#[test]
fn test_app_enabled_false_drops_critical() {
    let state = DndState::default();
    let config = default_dnd();
    let ovr = AppOverride {
        enabled: Some(false),
        ..Default::default()
    };
    let n = make_notification("blocked", Priority::Critical);
    assert_eq!(
        state.should_suppress(&n, &config, Some(&ovr)),
        SuppressResult::Drop
    );
}


#[test]
fn test_app_override_suppress() {
    let state = DndState::default();
    let config = default_dnd();
    let ovr = AppOverride {
        suppress: Some(true),
        ..Default::default()
    };
    let n = make_notification("app", Priority::Normal);
    assert_eq!(
        state.should_suppress(&n, &config, Some(&ovr)),
        SuppressResult::Suppress
    );
}

#[test]
fn test_app_override_bypass_dnd() {
    let state = DndState::default();
    let mut config = default_dnd();
    config.mode = DndMode::Priority;
    let ovr = AppOverride {
        bypass_dnd: Some(true),
        ..Default::default()
    };
    let n = make_notification("important-app", Priority::Normal);
    assert_eq!(
        state.should_suppress(&n, &config, Some(&ovr)),
        SuppressResult::Allow
    );
}

#[test]
fn test_app_override_suppress_beats_critical() {
    // Per-app suppress applies even to normal priority.
    // But critical should still pass? No: per-app suppress is checked
    // BEFORE priority. If app is suppressed, even critical is suppressed.
    let state = DndState::default();
    let config = default_dnd();
    let ovr = AppOverride {
        suppress: Some(true),
        ..Default::default()
    };
    let n = make_notification("app", Priority::Critical);
    assert_eq!(
        state.should_suppress(&n, &config, Some(&ovr)),
        SuppressResult::Suppress
    );
}


#[test]
fn test_fullscreen_queues() {
    let mut state = DndState::default();
    state.fullscreen_active = true;
    let config = default_dnd(); // suppress_fullscreen = true by default
    let n = make_notification("app", Priority::Normal);
    assert_eq!(state.should_suppress(&n, &config, None), SuppressResult::Queue);
}

#[test]
fn test_fullscreen_disabled() {
    let mut state = DndState::default();
    state.fullscreen_active = true;
    let mut config = default_dnd();
    config.suppress_fullscreen = false;
    let n = make_notification("app", Priority::Normal);
    assert_eq!(state.should_suppress(&n, &config, None), SuppressResult::Allow);
}

#[test]
fn test_fullscreen_critical_passes() {
    let mut state = DndState::default();
    state.fullscreen_active = true;
    let config = default_dnd();
    let n = make_notification("app", Priority::Critical);
    // Critical is checked before fullscreen.
    assert_eq!(state.should_suppress(&n, &config, None), SuppressResult::Allow);
}


#[test]
fn test_schedule_same_day_inside() {
    let schedule = DndSchedule {
        start: "09:00".into(),
        end: "17:00".into(),
        days: vec![],
        mode: ScheduleMode::Priority,
    };
    assert!(is_in_schedule_at(&schedule, 12, 0, 0)); // noon
    assert!(is_in_schedule_at(&schedule, 9, 0, 0));   // start
    assert!(!is_in_schedule_at(&schedule, 17, 0, 0)); // end (exclusive)
    assert!(!is_in_schedule_at(&schedule, 8, 59, 0)); // before
    assert!(!is_in_schedule_at(&schedule, 20, 0, 0)); // after
}

#[test]
fn test_schedule_overnight() {
    let schedule = DndSchedule {
        start: "22:00".into(),
        end: "07:00".into(),
        days: vec![],
        mode: ScheduleMode::Priority,
    };
    assert!(is_in_schedule_at(&schedule, 23, 0, 0));  // late evening
    assert!(is_in_schedule_at(&schedule, 0, 0, 0));   // midnight
    assert!(is_in_schedule_at(&schedule, 3, 30, 0));  // middle of night
    assert!(is_in_schedule_at(&schedule, 6, 59, 0));  // just before end
    assert!(!is_in_schedule_at(&schedule, 7, 0, 0));  // end (exclusive)
    assert!(!is_in_schedule_at(&schedule, 12, 0, 0)); // daytime
    assert!(!is_in_schedule_at(&schedule, 21, 59, 0)); // just before start
}

#[test]
fn test_schedule_weekday_filter() {
    let schedule = DndSchedule {
        start: "22:00".into(),
        end: "07:00".into(),
        days: vec![0, 1, 2, 3, 4], // Mon-Fri
        mode: ScheduleMode::Priority,
    };
    assert!(is_in_schedule_at(&schedule, 23, 0, 0));  // Monday
    assert!(is_in_schedule_at(&schedule, 23, 0, 4));  // Friday
    assert!(!is_in_schedule_at(&schedule, 23, 0, 5)); // Saturday
    assert!(!is_in_schedule_at(&schedule, 23, 0, 6)); // Sunday
}

#[test]
fn test_schedule_invalid_time() {
    let schedule = DndSchedule {
        start: "invalid".into(),
        end: "07:00".into(),
        days: vec![],
        mode: ScheduleMode::Priority,
    };
    assert!(!is_in_schedule_at(&schedule, 23, 0, 0));
}


#[test]
fn test_dnd_scheduled_uses_schedule() {
    let state = DndState::default();
    let mut config = default_dnd();
    config.mode = DndMode::Scheduled;
    let n = make_notification("app", Priority::Normal);
    let _result = state.should_suppress(&n, &config, None);
}


#[test]
fn test_focus_suppresses_matching_app() {
    let mut state = DndState::default();
    state.focus.activate("proj".into(), vec!["slack".into()]);
    let config = default_dnd();
    let n = make_notification("slack", Priority::Normal);
    assert_eq!(state.should_suppress(&n, &config, None), SuppressResult::Suppress);
}

#[test]
fn test_focus_allows_non_matching_app() {
    let mut state = DndState::default();
    state.focus.activate("proj".into(), vec!["slack".into()]);
    let config = default_dnd();
    let n = make_notification("signal", Priority::Normal);
    assert_eq!(state.should_suppress(&n, &config, None), SuppressResult::Allow);
}

#[test]
fn test_focus_never_suppresses_critical() {
    let mut state = DndState::default();
    state.focus.activate("proj".into(), vec!["slack".into()]);
    let config = default_dnd();
    let n = make_notification("slack", Priority::Critical);
    assert_eq!(state.should_suppress(&n, &config, None), SuppressResult::Allow);
}

#[test]
fn test_focus_inactive_allows_all() {
    let state = DndState::default();
    let config = default_dnd();
    let n = make_notification("slack", Priority::Normal);
    assert_eq!(state.should_suppress(&n, &config, None), SuppressResult::Allow);
}

#[test]
fn test_focus_case_insensitive() {
    let mut state = DndState::default();
    state.focus.activate("proj".into(), vec!["Slack".into()]);
    let config = default_dnd();
    let n = make_notification("slack", Priority::Normal);
    assert_eq!(state.should_suppress(&n, &config, None), SuppressResult::Suppress);
}

#[test]
fn test_always_allow_overrides_focus() {
    let mut state = DndState::default();
    state.focus.activate("proj".into(), vec!["phone".into()]);
    let mut config = default_dnd();
    config.always_allow = vec!["phone".into()];
    let n = make_notification("phone", Priority::Normal);
    // always_allow is checked before focus.
    assert_eq!(state.should_suppress(&n, &config, None), SuppressResult::Allow);
}

const NOON: LocalTime = LocalTime { second_of_day: 43200, weekday: 2 };

#[test]
fn alarm_categories() {
    for category in ["alarm", "ALARM.clock", "x-alarm", "X-Alarm.y", "reminder", "x-reminder.z"] {
        assert!(is_alarm_category(category), "{category}");
    }
    for category in ["", "alar", "x-", "email", " alarm", "älarm", "im.alarm"] {
        assert!(!is_alarm_category(category), "{category}");
    }
}

#[test]
fn expiry_is_strict() {
    // 2026-04-09T12:00:00Z
    let now = Timestamp { secs: 1_775_736_000, nanos: 0 };
    assert!(is_expired("2026-04-09T11:59:59Z", now));
    assert!(is_expired("2026-04-09T13:59:59.999999999+02:00", now));
    assert!(!is_expired("2026-04-09T12:00:00Z", now));
    assert!(!is_expired("2026-04-09T12:00:00.000000001Z", now));
    assert!(!is_expired("2026-04-09T11:00:00-02:00", now));
    assert!(!is_expired("yesterday", now));
    assert!(!is_past(None, now));
    assert!(is_past(Some((1_775_735_999, 1_500_000_000)), now));
    assert!(!is_past(Some((1_775_736_000, 0)), now));
}

#[test]
fn modes_at_a_time() {
    let now = Timestamp { secs: 1_775_736_000, nanos: 0 };
    let mut config = default_dnd();
    assert_eq!(effective_mode_at(&config, now, NOON), EffectiveMode::Off);
    config.mode = DndMode::Alarms;
    assert_eq!(effective_mode_at(&config, now, NOON), EffectiveMode::Alarms);
    assert_eq!(effective_mode(&config), EffectiveMode::Alarms);
    config.expires_at = Some("2026-04-09T11:00:00Z".into());
    assert_eq!(effective_mode_at(&config, now, NOON), EffectiveMode::Off);
    config.expires_at = Some("2026-04-09T13:00:00Z".into());
    assert_eq!(effective_mode_at(&config, now, NOON), EffectiveMode::Alarms);
    config.mode = DndMode::Scheduled;
    assert_eq!(effective_mode_at(&config, now, NOON), EffectiveMode::Off);
    config.schedule.start = "9:00".into();
    config.schedule.end = "17:30".into();
    for (sub, mode) in [
        (ScheduleMode::Priority, EffectiveMode::Priority),
        (ScheduleMode::Alarms, EffectiveMode::Alarms),
        (ScheduleMode::Total, EffectiveMode::Total),
    ] {
        config.schedule.mode = sub;
        assert_eq!(effective_mode_at(&config, now, NOON), mode);
        assert_eq!(resolve_mode(DndMode::Scheduled, sub, false, true), mode);
        assert_eq!(resolve_mode(DndMode::Scheduled, sub, true, true), EffectiveMode::Off);
    }
}

#[test]
fn schedule_texts() {
    let at = |start: &str, end: &str, hour, minute| {
        let schedule = DndSchedule {
            start: start.into(),
            end: end.into(),
            days: vec![],
            mode: ScheduleMode::Priority,
        };
        is_in_schedule_at(&schedule, hour, minute, 0)
    };
    assert!(at("0:0", "23:59", 0, 0));
    assert!(at("+9:00", "0017:00", 12, 0));
    for bad in ["", "9", "9:", ":9", "9:00:00", "24:00", "9:60", "-1:00", "9 :00", "9.00"] {
        assert!(!at(bad, "23:59", 12, 0), "{bad}");
        assert!(!at("0:00", bad, 12, 0), "{bad}");
    }
    // A window without length is empty.
    assert!(!at("12:00", "12:00", 12, 0));
    // An overnight window is the complement of the one with exchanged ends.
    for (hour, minute) in [(0, 0), (6, 59), (7, 0), (12, 0), (21, 59), (22, 0), (23, 59)] {
        assert_ne!(at("22:00", "07:00", hour, minute), at("07:00", "22:00", hour, minute));
    }
}

#[test]
fn schedule_runs_to_the_second() {
    let schedule = DndSchedule {
        start: "12:00".into(),
        end: "12:01".into(),
        days: vec![2],
        mode: ScheduleMode::Priority,
    };
    assert!(is_in_schedule_when(&schedule, NOON));
    assert!(is_in_schedule_when(&schedule, LocalTime { second_of_day: 43259, ..NOON }));
    assert!(!is_in_schedule_when(&schedule, LocalTime { second_of_day: 43260, ..NOON }));
    assert!(!is_in_schedule_when(&schedule, LocalTime { second_of_day: 43199, ..NOON }));
    assert!(!is_in_schedule_when(&schedule, LocalTime { weekday: 3, ..NOON }));
    // No time at all is on a ninth day.
    let never = DndSchedule { days: vec![8], ..DndSchedule::default() };
    assert!(!is_in_schedule(&never));
    // An invalid hour does not matter where there is no window.
    assert!(!is_in_schedule_at(&never, 99, 99, 0));
}

#[test]
fn allow_list_waits_for_fullscreen_even_when_critical() {
    let mut state = DndState::default();
    state.fullscreen_active = true;
    let mut config = default_dnd();
    config.always_allow = vec!["phone".into()];
    let n = make_notification("phone", Priority::Critical);
    assert_eq!(
        state.decide(&n, &config, None, EffectiveMode::Total),
        SuppressResult::Queue
    );
    assert_eq!(
        state.decide(&make_notification("x", Priority::Critical), &config, None, EffectiveMode::Off),
        SuppressResult::Allow
    );
    assert_eq!(
        state.decide(
            &make_notification("x", Priority::Critical),
            &config,
            None,
            EffectiveMode::Alarms
        ),
        SuppressResult::Suppress
    );
}

#[test]
fn disabled_beats_every_list() {
    let state = DndState::default();
    let mut config = default_dnd();
    config.always_allow = vec!["a".into()];
    let ovr = AppOverride {
        enabled: Some(false),
        bypass_dnd: Some(true),
        suppress: Some(true),
        ..Default::default()
    };
    let n = make_notification("a", Priority::Critical);
    assert_eq!(state.should_suppress(&n, &config, Some(&ovr)), SuppressResult::Drop);
    config.always_suppress = vec!["a".into()];
    assert_eq!(state.should_suppress(&n, &config, None), SuppressResult::Suppress);
}
