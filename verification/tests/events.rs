//! System events and the event bus.

use lunaris_notification_daemon::config::Config;
use lunaris_notification_daemon::dbus::server::NotifyEvent;
use lunaris_notification_daemon::events::consumer::{
    carries_focus, dispatch, message_length, registration, FocusPayload, MAX_MESSAGE_BYTES,
};
use lunaris_notification_daemon::events::source::received_event;
use lunaris_notification_daemon::events::{ChannelEventSource, EventSource, SystemEvent};
use lunaris_notification_daemon::manager::NotificationManager;
use std::sync::mpsc::TryRecvError;

#[test]
fn test_channel_event_source() {
    let (tx, source) = ChannelEventSource::new();
    assert!(source.try_recv().is_none());

    tx.send(SystemEvent::FullscreenEntered).unwrap();
    let event = source.try_recv().unwrap();
    assert!(matches!(event, SystemEvent::FullscreenEntered));
}

#[test]
fn test_dnd_changed_event() {
    let (tx, source) = ChannelEventSource::new();
    tx.send(SystemEvent::DndChanged { enabled: true }).unwrap();
    let event = source.try_recv().unwrap();
    match event {
        SystemEvent::DndChanged { enabled } => assert!(enabled),
        _ => panic!("wrong event type"),
    }
}

fn shown(mgr: &mut NotificationManager, app_name: &str) -> bool {
    mgr.handle_notify(1, app_name, "", "s", "", &[], 1, "", -1).event.is_some()
}

#[test]
fn bus_events_drive_the_manager() {
    let mut mgr = NotificationManager::new(Config::default());
    assert!(carries_focus("focus.activated") && !carries_focus("focus.deactivated"));
    let payload = FocusPayload {
        project_id: "p".into(),
        suppress_notifications_from: vec!["slack".into()],
    };
    assert!(dispatch("focus.activated", Some(payload), &mut mgr).is_empty());
    assert!(!shown(&mut mgr, "slack") && shown(&mut mgr, "mail"));
    // A payload that could not be decoded changes nothing.
    assert!(dispatch("focus.activated", None, &mut mgr).is_empty());
    assert!(!shown(&mut mgr, "slack"));
    assert!(dispatch("focus.deactivated", None, &mut mgr).is_empty());
    assert!(shown(&mut mgr, "slack"));

    assert!(dispatch("window.fullscreen_entered", None, &mut mgr).is_empty());
    assert!(!shown(&mut mgr, "mail"));
    assert!(dispatch("window.fullscreen_other", None, &mut mgr).is_empty());
    let flushed = dispatch("window.fullscreen_exited", None, &mut mgr);
    assert!(matches!(flushed[..], [NotifyEvent::Added(_)]));
    assert!(shown(&mut mgr, "mail"));
}

#[test]
fn registration_has_three_lines() {
    assert_eq!(registration(1000), "notification-daemon\nfocus.,window.fullscreen_\n1000\n");
}

#[test]
fn bus_message_lengths() {
    assert_eq!(message_length([0, 0, 1, 2]), Ok(258));
    assert_eq!(message_length([0, 16, 0, 0]), Ok(MAX_MESSAGE_BYTES));
    assert_eq!(message_length([0, 0, 0, 0]), Err("invalid message length: 0".to_string()));
    assert_eq!(message_length([0, 16, 0, 1]), Err("invalid message length: 1048577".to_string()));
    assert_eq!(
        message_length([255, 255, 255, 255]),
        Err("invalid message length: 4294967295".to_string())
    );
}

#[test]
fn nothing_received_is_no_event() {
    assert!(received_event(Err(TryRecvError::Empty)).is_none());
    assert!(received_event(Err(TryRecvError::Disconnected)).is_none());
    assert!(matches!(
        received_event(Ok(SystemEvent::FocusDeactivated)),
        Some(SystemEvent::FocusDeactivated)
    ));
}

#[test]
fn waiting_events_outlive_the_sender() {
    let (tx, source) = ChannelEventSource::new();
    tx.send(SystemEvent::FullscreenEntered).unwrap();
    tx.send(SystemEvent::FullscreenExited).unwrap();
    drop(tx);
    assert!(matches!(source.try_recv(), Some(SystemEvent::FullscreenEntered)));
    assert!(matches!(source.try_recv(), Some(SystemEvent::FullscreenExited)));
    assert!(source.try_recv().is_none());
}
