//! The messages exchanged with the desktop shell.

pub mod client_message;
pub mod server_message;
pub mod types;

pub use types::{
    Action, ActionInvoked, AllCleared, ClearAll, ClientHello, ClientMessage, CountUpdate,
    DismissNotification, DndMode, DndStateChanged, GetHistory, GetKnownApps, HistoryResponse,
    InvokeAction, KnownAppsResponse, MarkRead, Notification, NotificationAdded,
    NotificationClosed, NotificationRead, Priority, ServerMessage, SetDnd, SyncResponse,
};
