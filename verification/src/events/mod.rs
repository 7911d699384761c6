//! Event types for compositor / Event Bus integration.
//!
//! These are consumed by the daemon to track fullscreen state and focus
//! changes.

pub mod consumer;
pub mod source;

pub use source::{ChannelEventSource, EventSource, SystemEvent};
