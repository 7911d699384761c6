//! The parts of the messages.

use crate::socket::proto::{client_message, server_message};
use vstd::prelude::*;

verus! {

/// An action of a notification.
#[derive(Debug)]
pub struct Action {
    pub key: String,
    pub label: String,
}

/// A notification as it is sent to the shell.
#[derive(Debug)]
pub struct Notification {
    pub id: u32,
    pub app_name: String,
    pub summary: String,
    pub body: String,
    pub app_icon: String,
    pub actions: Vec<Action>,
    /// The number of a [`Priority`].
    pub priority: i32,
    pub category: String,
    pub timestamp: String,
    pub read: bool,
}

/// The content of a [`Notification`].
pub struct NotificationWire {
    pub id: u32,
    pub app_name: Seq<char>,
    pub summary: Seq<char>,
    pub body: Seq<char>,
    pub app_icon: Seq<char>,
    pub actions: Seq<(Seq<char>, Seq<char>)>,
    pub priority: i32,
    pub category: Seq<char>,
    pub timestamp: Seq<char>,
    pub read: bool,
}

/// The keys and labels of a list of actions.
pub open spec fn action_texts(actions: Seq<Action>) -> Seq<(Seq<char>, Seq<char>)> {
    actions.map_values(|a: Action| (a.key@, a.label@))
}

impl View for Notification {
    type V = NotificationWire;

    open spec fn view(&self) -> NotificationWire {
        NotificationWire {
            id: self.id,
            app_name: self.app_name@,
            summary: self.summary@,
            body: self.body@,
            app_icon: self.app_icon@,
            actions: action_texts(self.actions@),
            priority: self.priority,
            category: self.category@,
            timestamp: self.timestamp@,
            read: self.read,
        }
    }
}

/// The contents of a list of notifications.
pub open spec fn wires(list: Seq<Notification>) -> Seq<NotificationWire> {
    list.map_values(|n: Notification| n@)
}

/// Priorities on the wire, numbered from 0.
#[derive(Debug, Clone, Copy, PartialEq, Eq, Structural)]
pub enum Priority {
    Low,
    Normal,
    High,
    Critical,
}

impl Priority {
    /// The number of a priority on the wire.
    pub open spec fn spec_number(self) -> i32 {
        match self {
            Priority::Low => 0,
            Priority::Normal => 1,
            Priority::High => 2,
            Priority::Critical => 3,
        }
    }

    /// The number of a priority on the wire.
    pub fn number(self) -> (r: i32)
        ensures
            r == self.spec_number(),
    {
        match self {
            Priority::Low => 0,
            Priority::Normal => 1,
            Priority::High => 2,
            Priority::Critical => 3,
        }
    }
}

/// DND modes on the wire, numbered from 0. `DndOn` is sent by old shells only.
#[derive(Debug, Clone, Copy, PartialEq, Eq, Structural)]
pub enum DndMode {
    DndOff,
    DndOn,
    DndScheduled,
    DndPriority,
    DndAlarms,
    DndTotal,
}

impl DndMode {
    /// The number of a mode on the wire.
    pub open spec fn spec_number(self) -> i32 {
        match self {
            DndMode::DndOff => 0,
            DndMode::DndOn => 1,
            DndMode::DndScheduled => 2,
            DndMode::DndPriority => 3,
            DndMode::DndAlarms => 4,
            DndMode::DndTotal => 5,
        }
    }

    /// The number of a mode on the wire.
    pub fn number(self) -> (r: i32)
        ensures
            r == self.spec_number(),
    {
        match self {
            DndMode::DndOff => 0,
            DndMode::DndOn => 1,
            DndMode::DndScheduled => 2,
            DndMode::DndPriority => 3,
            DndMode::DndAlarms => 4,
            DndMode::DndTotal => 5,
        }
    }
}

/// A new notification.
#[derive(Debug)]
pub struct NotificationAdded {
    pub notification: Option<Notification>,
}

/// A notification was closed.
#[derive(Debug)]
pub struct NotificationClosed {
    pub id: u32,
    /// The number of the reason.
    pub reason: i32,
}

/// An action was invoked.
#[derive(Debug)]
pub struct ActionInvoked {
    pub id: u32,
    pub action_key: String,
}

/// A notification was marked as read.
#[derive(Debug)]
pub struct NotificationRead {
    pub id: u32,
}

/// All notifications were cleared.
#[derive(Debug)]
pub struct AllCleared {}

/// The DND mode changed.
#[derive(Debug)]
pub struct DndStateChanged {
    /// The number of a [`DndMode`].
    pub mode: i32,
}

/// The state sent to a client that has just connected.
#[derive(Debug)]
pub struct SyncResponse {
    pub pending: Vec<Notification>,
    pub unread_count: u32,
    /// The number of a [`DndMode`].
    pub dnd_mode: i32,
}

/// A page of the history.
#[derive(Debug)]
pub struct HistoryResponse {
    pub notifications: Vec<Notification>,
    pub has_more: bool,
}

/// The names of all known apps.
#[derive(Debug)]
pub struct KnownAppsResponse {
    pub app_names: Vec<String>,
}

/// Changed counts.
#[derive(Debug)]
pub struct CountUpdate {
    pub pending_count: u32,
    pub unread_count: u32,
}

/// A message to the shell.
#[derive(Debug)]
pub struct ServerMessage {
    pub msg: Option<server_message::Msg>,
}

/// The greeting of a client.
#[derive(Debug)]
pub struct ClientHello {
    pub client_name: String,
}

/// Dismiss a notification.
#[derive(Debug)]
pub struct DismissNotification {
    pub id: u32,
}

/// Mark a notification as read.
#[derive(Debug)]
pub struct MarkRead {
    pub id: u32,
}

/// Dismiss all notifications.
#[derive(Debug)]
pub struct ClearAll {}

/// Set the DND mode.
#[derive(Debug)]
pub struct SetDnd {
    /// The number of a [`DndMode`].
    pub mode: i32,
}

/// Ask for a page of the history. Empty texts stand for no cursor and no
/// filter.
#[derive(Debug)]
pub struct GetHistory {
    pub limit: u32,
    pub before_timestamp: String,
    pub app_name: String,
}

/// Invoke an action of a notification.
#[derive(Debug)]
pub struct InvokeAction {
    pub id: u32,
    pub action_key: String,
}

/// Ask for the names of all known apps.
#[derive(Debug)]
pub struct GetKnownApps {}

/// A message from the shell.
#[derive(Debug)]
pub struct ClientMessage {
    pub msg: Option<client_message::Msg>,
}

} // verus!
