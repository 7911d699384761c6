//! Verified core of the Lunaris notification daemon.

mod calls;
pub mod clock;
pub mod config;
pub mod dbus;
pub mod dnd;
pub mod error;
pub mod events;
pub mod manager;
pub mod names;
pub mod socket;
pub mod storage;
pub mod text;
