//! What the daemon tells its shell clients.

use crate::socket::proto::types::{
    wires, ActionInvoked, AllCleared, CountUpdate, DndStateChanged, HistoryResponse,
    KnownAppsResponse, NotificationAdded, NotificationClosed, NotificationRead, NotificationWire,
    ServerMessage, SyncResponse,
};
use crate::text::texts;
use vstd::prelude::*;

verus! {

/// The content of a server message.
#[derive(Debug)]
pub enum Msg {
    Added(NotificationAdded),
    Closed(NotificationClosed),
    ActionInvoked(ActionInvoked),
    NotificationRead(NotificationRead),
    AllCleared(AllCleared),
    DndChanged(DndStateChanged),
    Sync(SyncResponse),
    History(HistoryResponse),
    KnownApps(KnownAppsResponse),
    CountUpdate(CountUpdate),
}

/// What a server message says.
pub enum MsgView {
    Added(Option<NotificationWire>),
    Closed { id: u32, reason: i32 },
    ActionInvoked { id: u32, action_key: Seq<char> },
    NotificationRead { id: u32 },
    AllCleared,
    DndChanged { mode: i32 },
    Sync { pending: Seq<NotificationWire>, unread_count: u32, dnd_mode: i32 },
    History { notifications: Seq<NotificationWire>, has_more: bool },
    KnownApps { app_names: Seq<Seq<char>> },
    CountUpdate { pending_count: u32, unread_count: u32 },
}

impl View for Msg {
    type V = MsgView;

    open spec fn view(&self) -> MsgView {
        match *self {
            Msg::Added(m) => MsgView::Added(
                match m.notification {
                    Some(n) => Some(n@),
                    None => None,
                },
            ),
            Msg::Closed(m) => MsgView::Closed { id: m.id, reason: m.reason },
            Msg::ActionInvoked(m) => MsgView::ActionInvoked {
                id: m.id,
                action_key: m.action_key@,
            },
            Msg::NotificationRead(m) => MsgView::NotificationRead { id: m.id },
            Msg::AllCleared(m) => MsgView::AllCleared,
            Msg::DndChanged(m) => MsgView::DndChanged { mode: m.mode },
            Msg::Sync(m) => MsgView::Sync {
                pending: wires(m.pending@),
                unread_count: m.unread_count,
                dnd_mode: m.dnd_mode,
            },
            Msg::History(m) => MsgView::History {
                notifications: wires(m.notifications@),
                has_more: m.has_more,
            },
            Msg::KnownApps(m) => MsgView::KnownApps { app_names: texts(m.app_names@) },
            Msg::CountUpdate(m) => MsgView::CountUpdate {
                pending_count: m.pending_count,
                unread_count: m.unread_count,
            },
        }
    }
}

impl ServerMessage {
    /// What the message says, if anything.
    pub open spec fn says(self) -> Option<MsgView> {
        match self.msg {
            Some(m) => Some(m@),
            None => None,
        }
    }
}

} // verus!
