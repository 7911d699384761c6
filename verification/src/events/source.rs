//! System events and where they come from.

use crate::calls::{outcome_of, outcome_on};
use std::sync::mpsc::{Receiver, Sender, TryRecvError};
use vstd::prelude::*;

verus! {

/// Events the notification daemon cares about.
#[derive(Debug, Clone)]
pub enum SystemEvent {
    /// A window entered fullscreen.
    FullscreenEntered,
    /// A window exited fullscreen.
    FullscreenExited,
    /// DND was toggled from the shell.
    DndChanged { enabled: bool },
    /// Focus Mode activated for a project.
    FocusActivated { project_id: String, suppress_apps: Vec<String> },
    /// Focus Mode deactivated.
    FocusDeactivated,
}

/// `std::sync::mpsc::Sender`: the sending end of a channel.
#[verifier::external_type_specification]
#[verifier::external_body]
#[verifier::reject_recursive_types(T)]
pub struct ExSender<T>(std::sync::mpsc::Sender<T>);

/// `std::sync::mpsc::Receiver`: the receiving end of a channel.
#[verifier::external_type_specification]
#[verifier::external_body]
#[verifier::reject_recursive_types(T)]
pub struct ExReceiver<T>(std::sync::mpsc::Receiver<T>);

/// `std::sync::mpsc::TryRecvError`: why nothing was received.
#[verifier::external_type_specification]
#[verifier::external_body]
pub struct ExTryRecvError(std::sync::mpsc::TryRecvError);

/// `std::sync::mpsc::channel`: the two ends of a new channel. Nothing is
/// claimed of them: that what is sent at one end arrives at the other, in
/// order, is left unsaid.
#[verifier::external_body]
fn new_channel() -> (r: (Sender<SystemEvent>, Receiver<SystemEvent>)) {
    std::sync::mpsc::channel()
}

/// `std::sync::mpsc::Receiver::try_recv`: the next event, if one is waiting.
/// Nothing is claimed of it, since it depends on what was sent.
#[verifier::external_body]
fn receive(rx: &Receiver<SystemEvent>) -> (r: Result<SystemEvent, TryRecvError>) {
    rx.try_recv()
}

/// The event of an attempt to receive one. Nothing waiting and nobody left to
/// send both count as no event.
pub fn received_event(received: Result<SystemEvent, TryRecvError>) -> (r: Option<SystemEvent>)
    ensures
        r == (match received {
            Ok(event) => Some(event),
            Err(_) => None,
        }),
{
    match received {
        Ok(event) => Some(event),
        Err(_) => None,
    }
}

/// Trait for receiving system events.
///
/// Implemented by the real Event Bus consumer in production, and by a channel
/// in tests.
pub trait EventSource: Send {
    /// Try to receive the next event (non-blocking).
    fn try_recv(&self) -> Option<SystemEvent>;
}

/// Channel-based event source for testing and early integration.
#[derive(Debug)]
pub struct ChannelEventSource {
    rx: Receiver<SystemEvent>,
}

impl ChannelEventSource {
    /// Whether this source and a sending end may be what one new channel gave.
    pub closed spec fn fed_by(self, tx: Sender<SystemEvent>) -> bool {
        call_ensures(new_channel, (), (tx, self.rx))
    }

    /// Whether an outcome may be what an attempt to receive from this source's
    /// channel gave.
    pub closed spec fn attempted(self, got: Result<SystemEvent, TryRecvError>) -> bool {
        call_ensures(receive, (&self.rx,), got)
    }

    /// Create a new channel event source, with the sending end of its channel.
    pub fn new() -> (r: (Sender<SystemEvent>, Self))
        ensures
            r.1.fed_by(r.0),
    {
        let (tx, rx) = outcome_of(new_channel);
        (tx, ChannelEventSource { rx })
    }
}

impl EventSource for ChannelEventSource {
    fn try_recv(&self) -> (r: Option<SystemEvent>)
        ensures
            exists|got: Result<SystemEvent, TryRecvError>| #[trigger]
                self.attempted(got) && r == (match got {
                    Ok(event) => Some(event),
                    Err(_) => None,
                }),
    {
        let got: Result<SystemEvent, TryRecvError> = outcome_on(receive, &self.rx);
        assert(self.attempted(got));
        received_event(got)
    }
}

} // verus!
