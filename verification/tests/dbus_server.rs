//! The D-Bus server: priorities, actions, IDs, capabilities.

use lunaris_notification_daemon::config::Config;
use lunaris_notification_daemon::dbus::hints::HintValue;
use lunaris_notification_daemon::dbus::server::{
    determine_priority, parse_actions, CloseReason, Notification, NotificationServer, NotifyEvent,
    Priority,
};
use lunaris_notification_daemon::manager::NotificationManager;
use lunaris_notification_daemon::names::NameMap;

#[test]
fn test_urgency_critical() {
    assert_eq!(determine_priority(2, -1, ""), Priority::Critical);
    assert_eq!(determine_priority(2, 5000, ""), Priority::Critical);
    assert_eq!(determine_priority(2, 0, ""), Priority::Critical);
}

#[test]
fn test_urgency_low() {
    assert_eq!(determine_priority(0, -1, ""), Priority::Low);
    assert_eq!(determine_priority(0, 5000, ""), Priority::Low);
}

#[test]
fn test_urgency_low_with_timeout_zero() {
    // urgency 0 BUT timeout 0 -> urgency check (0 < 2) passes,
    // then timeout 0 check -> Critical wins.
    assert_eq!(determine_priority(0, 0, ""), Priority::Critical);
}

#[test]
fn test_timeout_zero_critical() {
    assert_eq!(determine_priority(1, 0, ""), Priority::Critical);
}

#[test]
fn test_normal_default() {
    assert_eq!(determine_priority(1, -1, ""), Priority::Normal);
    assert_eq!(determine_priority(1, 5000, ""), Priority::Normal);
}

#[test]
fn test_category_im_high() {
    assert_eq!(determine_priority(1, -1, "im.received"), Priority::High);
    assert_eq!(determine_priority(1, 5000, "im"), Priority::High);
}

#[test]
fn test_category_email_high() {
    assert_eq!(determine_priority(1, -1, "email.arrived"), Priority::High);
    assert_eq!(determine_priority(1, 5000, "email"), Priority::High);
}

#[test]
fn test_category_device_error_high() {
    assert_eq!(determine_priority(1, -1, "device.error"), Priority::High);
    assert_eq!(determine_priority(1, -1, "network.error"), Priority::High);
}

#[test]
fn test_category_transfer_normal() {
    assert_eq!(
        determine_priority(1, -1, "transfer.complete"),
        Priority::Normal
    );
}

#[test]
fn test_unknown_category_normal() {
    assert_eq!(determine_priority(1, -1, "x-custom.thing"), Priority::Normal);
}

#[test]
fn test_urgency_overrides_category() {
    // urgency=2 should be critical even with a "normal" category.
    assert_eq!(
        determine_priority(2, -1, "transfer.complete"),
        Priority::Critical
    );
    // urgency=0 should be low even with "im.received" category.
    assert_eq!(determine_priority(0, -1, "im.received"), Priority::Low);
}

#[test]
fn test_parse_actions_empty() {
    assert!(parse_actions(&[]).is_empty());
}

#[test]
fn test_parse_actions_pairs() {
    let raw = vec![
        "default".to_string(),
        "Open".to_string(),
        "dismiss".to_string(),
        "Dismiss".to_string(),
    ];
    let actions = parse_actions(&raw);
    assert_eq!(actions.len(), 2);
    assert_eq!(actions[0], ("default".into(), "Open".into()));
    assert_eq!(actions[1], ("dismiss".into(), "Dismiss".into()));
}

#[test]
fn test_parse_actions_odd_length() {
    let raw = vec![
        "default".to_string(),
        "Open".to_string(),
        "orphan".to_string(),
    ];
    let actions = parse_actions(&raw);
    assert_eq!(actions.len(), 1);
}

#[test]
fn test_notification_default_fields() {
    let n = Notification {
        id: 1,
        app_name: "test".into(),
        summary: "Hello".into(),
        body: "World".into(),
        app_icon: "".into(),
        actions: vec![],
        priority: Priority::Normal,
        urgency: 1,
        category: "".into(),
        timestamp: "2026-04-09T00:00:00Z".into(),
        expire_timeout: -1,
        read: false,
    };
    assert_eq!(n.id, 1);
    assert!(!n.read);
    assert_eq!(n.priority, Priority::Normal);
}

#[test]
fn test_server_capabilities() {
    let server = NotificationServer::new();
    let caps = server.get_capabilities();
    assert!(caps.contains(&"body".to_owned()));
    assert!(caps.contains(&"actions".to_owned()));
    assert!(caps.contains(&"persistence".to_owned()));
}

#[test]
fn test_server_info() {
    let server = NotificationServer::new();
    let (name, vendor, _version, spec) = server.get_server_information();
    assert_eq!(name, "Lunaris");
    assert_eq!(vendor, "Lunaris OS");
    assert_eq!(spec, "1.2");
}

#[test]
fn markup_is_not_advertised() {
    let caps = NotificationServer::new().get_capabilities();
    assert_eq!(caps, vec!["body", "actions", "icon-static", "persistence"]);
}

#[test]
fn close_reasons_have_their_numbers() {
    assert_eq!(CloseReason::Expired.code(), 1);
    assert_eq!(CloseReason::Dismissed.code(), 2);
    assert_eq!(CloseReason::Closed.code(), 3);
    assert_eq!(CloseReason::Undefined.code(), 4);
}

#[test]
fn ids_count_up_from_one() {
    let mut server = NotificationServer::new();
    assert_eq!(server.assign_id(0), 1);
    assert_eq!(server.assign_id(7), 7);
    assert_eq!(server.assign_id(0), 2);
}

#[test]
fn notify_hands_over_to_the_manager() {
    let mut server = NotificationServer::new();
    let mut hints = NameMap::new();
    hints.insert("urgency".into(), HintValue::U8(2));
    hints.insert("category".into(), HintValue::Str("im.received".into()));
    // Without a manager the notification is lost, and its ID with it.
    let lost = server.notify("App", 0, "icon", "s", "b", &[], &hints, -1);
    assert_eq!(lost.id, 0);
    assert!(lost.store.is_none() && lost.event.is_none());
    assert!(server.close_notification(1).0.is_none());

    server.set_manager(NotificationManager::new(Config::default()));
    let outcome = server.notify("App", 0, "icon", "s", "b", &[], &hints, -1);
    assert_eq!(outcome.id, 2);
    let n = outcome.store.unwrap();
    assert_eq!(n.priority, Priority::Critical);
    assert_eq!((n.urgency, n.category.as_str()), (2, "im.received"));
    assert_eq!(n.app_icon, "icon");
    let replaced = server.notify("App", 2, "icon", "new", "b", &[], &NameMap::new(), -1);
    assert_eq!(replaced.id, 2);
    assert_eq!(replaced.store.unwrap().urgency, 1);

    let (work, code) = server.close_notification(2);
    assert_eq!(code, 3);
    assert!(matches!(
        work.unwrap().1,
        NotifyEvent::Closed { id: 2, reason: CloseReason::Closed }
    ));
}

#[test]
fn only_the_first_manager_counts() {
    let mut server = NotificationServer::new();
    server.set_manager(NotificationManager::new(Config::default()));
    for _ in 0..10 {
        server.notify("App", 0, "", "s", "", &[], &NameMap::new(), -1);
    }
    server.set_manager(NotificationManager::new(Config::default()));
    assert_eq!(server.notify("App", 0, "", "s", "", &[], &NameMap::new(), -1).id, 0);
}
