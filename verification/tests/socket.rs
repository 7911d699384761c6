//! Framing, messages to the shell, and client requests.

use bytes::BufMut;
use lunaris_notification_daemon::config::DndMode;
use lunaris_notification_daemon::dbus::server::{
    CloseReason, Notification, NotifyEvent, Priority,
};
use lunaris_notification_daemon::error::NotifyError;
use lunaris_notification_daemon::socket::proto::{client_message, server_message};
use lunaris_notification_daemon::socket::protocol::{
    body_length, encode_message, proto, read_be_number, read_message, write_message, HEADER_SIZE,
    MAX_MESSAGE_SIZE,
};
use lunaris_notification_daemon::socket::server::{
    broadcast_message, client_query, dnd_mode_to_proto, handle_client, proto_to_dnd_mode,
    remove_dead, Answer,
};
use lunaris_notification_daemon::socket::SocketServer;
use lunaris_notification_daemon::storage::sqlite::SqlValue;
use prost::Message;

fn make(id: u32, read: bool) -> Notification {
    Notification {
        id,
        app_name: "Firefox".into(),
        summary: "Done".into(),
        body: "file.zip".into(),
        app_icon: "firefox".into(),
        actions: vec![("open".into(), "Open".into())],
        priority: Priority::High,
        urgency: 1,
        category: "transfer.complete".into(),
        timestamp: "2026-04-09T12:00:00Z".into(),
        expire_timeout: 5000,
        read,
    }
}

#[test]
fn test_encode_decode_roundtrip() {
    // A count update: pending 5, unread 3.
    let mut body = Vec::new();
    prost::encoding::uint32::encode(1, &5, &mut body);
    prost::encoding::uint32::encode(2, &3, &mut body);

    let encoded = encode_message(&body).unwrap();
    assert_eq!(u32::from_be_bytes(encoded[..4].try_into().unwrap()) as usize, body.len());
    assert_eq!(&encoded[HEADER_SIZE..], &body[..]);

    let mut rest = &encoded[HEADER_SIZE..];
    let (mut pending_count, mut unread_count) = (0u32, 0u32);
    while !rest.is_empty() {
        let (tag, wire_type) = prost::encoding::decode_key(&mut rest).unwrap();
        let field = match tag {
            1 => &mut pending_count,
            2 => &mut unread_count,
            _ => panic!("unknown field"),
        };
        let context = prost::encoding::DecodeContext::default();
        prost::encoding::uint32::merge(wire_type, field, &mut rest, context).unwrap();
    }
    assert_eq!(pending_count, 5);
    assert_eq!(unread_count, 3);
}

#[test]
fn test_encode_oversized_rejected() {
    // A very large body.
    let body: Vec<u8> = "x".repeat(100).repeat(100_000).into_bytes();
    let result = encode_message(&body);
    assert!(result.is_err());
}

#[test]
fn test_read_write_message() {
    let body = "test-shell".to_string().encode_to_vec();

    // Write to buffer.
    let mut buf = Vec::new();
    write_message(&mut buf, &body).unwrap();

    // Read back.
    let decoded = read_message(&buf).unwrap().unwrap();
    assert_eq!(String::decode(&decoded[..]).unwrap(), "test-shell");
}

#[test]
fn test_read_eof_returns_none() {
    let result = read_message(&[]);
    assert!(result.unwrap().is_none());
}

#[test]
fn test_read_oversized_rejected() {
    // Write a fake header claiming 2MB body.
    let mut buf = Vec::new();
    buf.put_u32(2 * 1024 * 1024);
    buf.extend_from_slice(&[0u8; 100]); // partial body

    let result = read_message(&buf);
    assert!(result.is_err());
}

#[test]
fn test_notification_to_proto() {
    let n = Notification {
        id: 42,
        app_name: "Firefox".into(),
        summary: "Done".into(),
        body: "file.zip".into(),
        app_icon: "firefox".into(),
        actions: vec![("open".into(), "Open".into())],
        priority: Priority::High,
        urgency: 1,
        category: "transfer.complete".into(),
        timestamp: "2026-04-09T12:00:00Z".into(),
        expire_timeout: 5000,
        read: false,
    };

    let p: proto::Notification = (&n).into();
    assert_eq!(p.id, 42);
    assert_eq!(p.app_name, "Firefox");
    assert_eq!(p.priority, proto::Priority::High as i32);
    assert_eq!(p.actions.len(), 1);
    assert_eq!(p.actions[0].key, "open");
}

#[test]
fn test_default_socket_path() {
    let path_str = SocketServer::default_path(1000);
    assert!(path_str.contains("/run/user/"));
    assert!(path_str.ends_with("/lunaris/notification.sock"));
    assert_eq!(path_str, "/run/user/1000/lunaris/notification.sock");
    assert_eq!(SocketServer::default_path(0), "/run/user/0/lunaris/notification.sock");
}

#[test]
fn server_keeps_its_path() {
    let server = SocketServer::new("/tmp/n.sock".into());
    assert_eq!(server.path(), "/tmp/n.sock");
}

#[test]
fn header_is_big_endian() {
    assert_eq!(encode_message(&[7, 8]).unwrap(), vec![0, 0, 0, 2, 7, 8]);
    assert_eq!(encode_message(&[0; 0x01_02_03]).unwrap()[..4], [0, 1, 2, 3]);
    assert_eq!(read_be_number([1, 2, 3, 4]), 0x01020304);
    assert_eq!(read_be_number([255, 255, 255, 255]), u32::MAX);
}

#[test]
fn size_limit_is_inclusive() {
    assert!(encode_message(&vec![0; MAX_MESSAGE_SIZE]).is_ok());
    match encode_message(&vec![0; MAX_MESSAGE_SIZE + 1]) {
        Err(NotifyError::Invalid(e)) => {
            assert_eq!(e, "message too large: 1048577 bytes (max 1048576)")
        }
        _ => panic!("accepted"),
    }
    assert_eq!(body_length([0, 16, 0, 0]).unwrap(), MAX_MESSAGE_SIZE);
    match body_length([0, 16, 0, 1]) {
        Err(e) => assert_eq!(
            e.message(),
            "invalid notification: message too large: 1048577 bytes"
        ),
        _ => panic!("accepted"),
    }
}

#[test]
fn frames_follow_one_another() {
    let mut stream = Vec::new();
    write_message(&mut stream, b"one").unwrap();
    write_message(&mut stream, b"").unwrap();
    write_message(&mut stream, b"three").unwrap();
    assert!(write_message(&mut stream, &vec![0; MAX_MESSAGE_SIZE + 1]).is_err());
    let mut rest = &stream[..];
    for expected in ["one", "", "three"] {
        let body = read_message(rest).unwrap().unwrap();
        assert_eq!(body, expected.as_bytes());
        rest = &rest[HEADER_SIZE + body.len()..];
    }
    assert!(rest.is_empty());
}

#[test]
fn partial_messages() {
    // A partial header is the end of the stream.
    assert!(read_message(&[0, 0, 0]).unwrap().is_none());
    // A partial body is not.
    match read_message(&[0, 0, 0, 2, 9]) {
        Err(e) => assert_eq!(e.message(), "IO error: early eof"),
        _ => panic!("accepted"),
    }
}

#[test]
fn error_texts() {
    assert_eq!(NotifyError::Dbus("x".into()).message(), "D-Bus error: x");
    assert_eq!(NotifyError::Invalid("x".into()).message(), "invalid notification: x");
    assert_eq!(NotifyError::NotFound(4294967295).message(), "notification not found: 4294967295");
    assert_eq!(NotifyError::Db("x".into()).message(), "database error: x");
    assert_eq!(NotifyError::Io("x".into()).message(), "IO error: x");
}

#[test]
fn dnd_modes_survive_the_wire() {
    for mode in [
        DndMode::Off,
        DndMode::Priority,
        DndMode::Alarms,
        DndMode::Total,
        DndMode::Scheduled,
    ] {
        assert_eq!(proto_to_dnd_mode(dnd_mode_to_proto(mode)), mode);
    }
    // Old shells.
    assert_eq!(proto_to_dnd_mode(proto::DndMode::DndOn as i32), DndMode::Priority);
    assert_eq!(proto_to_dnd_mode(99), DndMode::Off);
    assert_eq!(proto_to_dnd_mode(-1), DndMode::Off);
    assert_eq!(dnd_mode_to_proto(DndMode::Total), proto::DndMode::DndTotal as i32);
    assert_eq!(proto::DndMode::DndScheduled.number(), proto::DndMode::DndScheduled as i32);
    assert_eq!(proto::Priority::Critical.number(), proto::Priority::Critical as i32);
}

#[test]
fn events_are_announced() {
    match broadcast_message(&NotifyEvent::Added(make(7, false))).msg {
        Some(server_message::Msg::Added(a)) => assert_eq!(a.notification.unwrap().id, 7),
        _ => panic!("wrong message"),
    }
    match broadcast_message(&NotifyEvent::Closed { id: 7, reason: CloseReason::Expired }).msg {
        Some(server_message::Msg::Closed(c)) => assert_eq!((c.id, c.reason), (7, 1)),
        _ => panic!("wrong message"),
    }
    let invoked = NotifyEvent::ActionInvoked { id: 7, action_key: "open".into() };
    match broadcast_message(&invoked.clone()).msg {
        Some(server_message::Msg::ActionInvoked(a)) => {
            assert_eq!((a.id, a.action_key), (7, "open".to_string()))
        }
        _ => panic!("wrong message"),
    }
    match broadcast_message(&NotifyEvent::Read { id: 7 }).msg {
        Some(server_message::Msg::NotificationRead(r)) => assert_eq!(r.id, 7),
        _ => panic!("wrong message"),
    }
    assert!(matches!(
        broadcast_message(&NotifyEvent::AllCleared).msg,
        Some(server_message::Msg::AllCleared(_))
    ));
    match broadcast_message(&NotifyEvent::DndChanged { mode: DndMode::Alarms }).msg {
        Some(server_message::Msg::DndChanged(d)) => {
            assert_eq!(d.mode, proto::DndMode::DndAlarms as i32)
        }
        _ => panic!("wrong message"),
    }
}

fn message(msg: client_message::Msg) -> proto::ClientMessage {
    proto::ClientMessage { msg: Some(msg) }
}

#[test]
fn hello_gets_the_state() {
    let hello = message(client_message::Msg::Hello(proto::ClientHello {
        client_name: "shell".into(),
    }));
    assert!(client_query(&hello).unwrap().sql.contains("dismissed = 0"));
    let pending = vec![make(3, false), make(2, true), make(1, false)];
    let out = handle_client(&hello, Answer::Notifications(pending), DndMode::Priority);
    assert!(out.statements.is_empty() && out.event.is_none() && out.mode.is_none());
    match out.response.unwrap().msg {
        Some(server_message::Msg::Sync(s)) => {
            assert_eq!(s.pending.iter().map(|n| n.id).collect::<Vec<_>>(), vec![3, 2, 1]);
            assert_eq!(s.unread_count, 2);
            assert_eq!(s.dnd_mode, proto::DndMode::DndPriority as i32);
        }
        _ => panic!("wrong message"),
    }
    // A failed query counts as an empty list.
    match handle_client(&hello, Answer::Nothing, DndMode::Off).response.unwrap().msg {
        Some(server_message::Msg::Sync(s)) => assert!(s.pending.is_empty()),
        _ => panic!("wrong message"),
    }
}

#[test]
fn dismiss_and_mark_read() {
    let dismiss = message(client_message::Msg::Dismiss(proto::DismissNotification { id: 9 }));
    assert!(client_query(&dismiss).is_none());
    let out = handle_client(&dismiss, Answer::Nothing, DndMode::Off);
    assert_eq!(out.statements.len(), 1);
    assert!(matches!(out.statements[0].args[0], SqlValue::Int(2)));
    assert!(matches!(out.statements[0].args[1], SqlValue::Int(9)));
    assert!(matches!(
        out.event,
        Some(NotifyEvent::Closed { id: 9, reason: CloseReason::Dismissed })
    ));
    assert!(out.response.is_none());

    let read = message(client_message::Msg::MarkRead(proto::MarkRead { id: 9 }));
    let out = handle_client(&read, Answer::Nothing, DndMode::Off);
    assert!(out.statements[0].sql.contains("SET read = 1"));
    assert!(matches!(out.event, Some(NotifyEvent::Read { id: 9 })));
}

#[test]
fn clear_all_dismisses_everything() {
    let clear = message(client_message::Msg::ClearAll(proto::ClearAll {}));
    assert!(client_query(&clear).is_some());
    let out = handle_client(
        &clear,
        Answer::Notifications(vec![make(4, false), make(5, true)]),
        DndMode::Off,
    );
    assert_eq!(out.statements.len(), 2);
    assert!(matches!(out.statements[1].args[1], SqlValue::Int(5)));
    assert!(matches!(out.event, Some(NotifyEvent::AllCleared)));
}

#[test]
fn set_dnd_changes_the_mode() {
    let set = message(client_message::Msg::SetDnd(proto::SetDnd {
        mode: proto::DndMode::DndOn as i32,
    }));
    let out = handle_client(&set, Answer::Nothing, DndMode::Off);
    assert_eq!(out.mode, Some(DndMode::Priority));
    assert!(matches!(out.event, Some(NotifyEvent::DndChanged { mode: DndMode::Priority })));
}

#[test]
fn history_pages() {
    let ask = |limit, before: &str, app: &str| {
        message(client_message::Msg::GetHistory(proto::GetHistory {
            limit,
            before_timestamp: before.into(),
            app_name: app.into(),
        }))
    };
    let all = client_query(&ask(2, "", "")).unwrap();
    assert_eq!(all.args.len(), 2);
    assert!(matches!(&all.args[0], SqlValue::Text(t) if t == "9999-12-31T23:59:59Z"));
    assert!(matches!(all.args[1], SqlValue::Int(2)));
    let some = client_query(&ask(2, "2026-01-01T00:00:00Z", "App")).unwrap();
    assert_eq!(some.args.len(), 3);
    assert!(matches!(&some.args[0], SqlValue::Text(t) if t == "2026-01-01T00:00:00Z"));
    assert!(matches!(&some.args[1], SqlValue::Text(t) if t == "App"));

    for (count, more) in [(2, true), (1, false)] {
        let list = (0..count).map(|i| make(i, false)).collect();
        let out = handle_client(&ask(2, "", ""), Answer::Notifications(list), DndMode::Off);
        match out.response.unwrap().msg {
            Some(server_message::Msg::History(h)) => {
                assert_eq!(h.notifications.len(), count as usize);
                assert_eq!(h.has_more, more);
            }
            _ => panic!("wrong message"),
        }
    }
}

#[test]
fn actions_and_known_apps() {
    let invoke = message(client_message::Msg::InvokeAction(proto::InvokeAction {
        id: 3,
        action_key: "open".into(),
    }));
    match handle_client(&invoke, Answer::Nothing, DndMode::Off).event {
        Some(NotifyEvent::ActionInvoked { id, action_key }) => {
            assert_eq!((id, action_key.as_str()), (3, "open"))
        }
        _ => panic!("wrong event"),
    }
    let apps = message(client_message::Msg::GetKnownApps(proto::GetKnownApps {}));
    assert!(client_query(&apps).unwrap().sql.contains("DISTINCT app_name"));
    let names = vec!["a".to_string(), "b".to_string()];
    let out = handle_client(&apps, Answer::AppNames(names.clone()), DndMode::Off);
    match out.response.unwrap().msg {
        Some(server_message::Msg::KnownApps(k)) => assert_eq!(k.app_names, names),
        _ => panic!("wrong message"),
    }
}

#[test]
fn empty_client_message_is_ignored() {
    let empty = proto::ClientMessage { msg: None };
    assert!(client_query(&empty).is_none());
    let out = handle_client(&empty, Answer::Nothing, DndMode::Off);
    assert!(out.statements.is_empty() && out.mode.is_none());
    assert!(out.event.is_none() && out.response.is_none());
}

#[test]
fn dead_clients_are_removed() {
    let mut clients = vec!["a", "b", "c", "d"];
    remove_dead(&mut clients, &vec![true, false, true, false]);
    assert_eq!(clients, vec!["a", "c"]);
    remove_dead(&mut clients, &vec![false, false]);
    assert!(clients.is_empty());
}

/// A client that takes a number of frames and then fails.
struct Client {
    id: u32,
    takes: usize,
    sent: Vec<Vec<u8>>,
}

/// The body of a message, in an encoding for this test.
fn body_of(message: &proto::ServerMessage) -> Vec<u8> {
    match &message.msg {
        Some(server_message::Msg::NotificationRead(r)) => vec![1, r.id as u8],
        Some(server_message::Msg::Added(_)) => vec![0; MAX_MESSAGE_SIZE + 1],
        _ => vec![2],
    }
}

#[test]
fn each_client_gets_one_frame_per_event_until_it_fails() {
    let events = [
        NotifyEvent::Read { id: 1 },
        NotifyEvent::AllCleared,
        // Too large to be sent: skipped.
        NotifyEvent::Added(make(9, false)),
        NotifyEvent::Read { id: 3 },
    ];
    let mut gone: Vec<Client> = Vec::new();
    let mut clients: Vec<Client> = [(1, 9), (2, 1), (3, 0), (4, 9)]
        .into_iter()
        .map(|(id, takes)| Client { id, takes, sent: vec![] })
        .collect();
    let mut frames: Vec<Vec<u8>> = Vec::new();
    for event in &events {
        let Ok(frame) = encode_message(&body_of(&broadcast_message(event))) else { continue };
        let mut writable = Vec::new();
        for client in &mut clients {
            let works = client.sent.len() < client.takes;
            if works {
                client.sent.push(frame.clone());
            } else {
                gone.push(Client { id: client.id, takes: 0, sent: client.sent.clone() });
            }
            writable.push(works);
        }
        remove_dead(&mut clients, &writable);
        frames.push(frame);
    }
    assert_eq!(frames.len(), 3);
    assert_eq!(clients.iter().map(|c| c.id).collect::<Vec<_>>(), vec![1, 4]);
    for client in &clients {
        assert_eq!(client.sent, frames);
    }
    assert_eq!(gone.iter().map(|c| c.id).collect::<Vec<_>>(), vec![3, 2]);
    assert!(gone[0].sent.is_empty());
    assert_eq!(gone[1].sent, frames[..1]);
}
