//! The `org.freedesktop.Notifications` side of the daemon.

pub mod hints;
pub mod icon_hints;
pub mod server;

pub use server::NotificationServer;
