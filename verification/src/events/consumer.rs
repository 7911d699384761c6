//! Event Bus consumer.
//!
//! Subscribes to `focus.*` (the shell emits these when the user enters or
//! leaves Focus Mode for a project) and `window.fullscreen_*` (emitted by the
//! compositor), and drives the corresponding state changes on the
//! [`NotificationManager`].

use crate::dbus::server::{NotificationView, NotifyEvent, NotifyEventView};
use crate::dnd::focus::FocusView;
use crate::dnd::state::DndView;
use crate::manager::notification::{events, ManagerView, NotificationManager};
use crate::socket::protocol::{be_number, read_be_number};
use crate::text::{decimal, decimal_text, join, str_eq, texts};
use vstd::prelude::*;

verus! {

/// Default path of the consumer socket.
pub const DEFAULT_CONSUMER_SOCKET: &'static str = "/run/lunaris/event-bus-consumer.sock";

/// The name under which the daemon registers.
pub const CONSUMER_ID: &'static str = "notification-daemon";

/// Prefix subscriptions: `<prefix>` matches every type that begins with it.
pub const SUBSCRIPTIONS: &'static str = "focus.,window.fullscreen_";

/// Maximum size of a message in bytes (1 MB).
pub const MAX_MESSAGE_BYTES: u32 = 1048576;

/// The registration sent after connecting: the consumer, its subscriptions and
/// the user, each on a line of its own.
pub fn registration(uid: u32) -> (r: String)
    ensures
        r@ == CONSUMER_ID@ + "\n"@ + SUBSCRIPTIONS@ + "\n"@ + decimal_text(uid as nat) + "\n"@,
{
    let mut r: String = join(CONSUMER_ID, "\n");
    r = join(r.as_str(), SUBSCRIPTIONS);
    r = join(r.as_str(), "\n");
    let number: String = decimal(uid as u64);
    r = join(r.as_str(), number.as_str());
    join(r.as_str(), "\n")
}

/// The length of the message that follows a header of four bytes, most
/// significant first. Empty messages and messages beyond the maximum are
/// refused.
pub fn message_length(header: [u8; 4]) -> (r: Result<u32, String>)
    ensures
        ({
            let len = be_number(header@);
            &&& r is Ok <==> 0 < len <= MAX_MESSAGE_BYTES
            &&& r matches Ok(n) ==> n == len
            &&& r matches Err(e) ==> e@ == "invalid message length: "@ + decimal_text(len)
        }),
{
    let len: u32 = read_be_number(header);
    if len == 0 || len > MAX_MESSAGE_BYTES {
        let number: String = decimal(len as u64);
        return Err(join("invalid message length: ", number.as_str()));
    }
    Ok(len)
}

/// The payload of a `focus.activated` event.
#[derive(Debug)]
pub struct FocusPayload {
    pub project_id: String,
    /// Apps whose notifications are suppressed.
    pub suppress_notifications_from: Vec<String>,
}

/// What an event of the bus asks for.
pub enum BusEffect {
    /// Focus on a project, with apps suppressed.
    Focus(Seq<char>, Seq<Seq<char>>),
    /// End the focus session.
    Unfocus,
    /// Set the fullscreen state.
    Fullscreen(bool),
    /// Nothing.
    Ignore,
}

/// What an event of a type asks for, given the decoded focus payload if there
/// is one. A focus event without a valid payload, and an event of any other
/// type, asks for nothing.
pub open spec fn bus_effect(event_type: Seq<char>, payload: Option<FocusPayload>) -> BusEffect {
    if event_type == "focus.activated"@ {
        match payload {
            Some(p) => BusEffect::Focus(p.project_id@, texts(p.suppress_notifications_from@)),
            None => BusEffect::Ignore,
        }
    } else if event_type == "focus.deactivated"@ {
        BusEffect::Unfocus
    } else if event_type == "window.fullscreen_entered"@ {
        BusEffect::Fullscreen(true)
    } else if event_type == "window.fullscreen_exited"@ {
        BusEffect::Fullscreen(false)
    } else {
        BusEffect::Ignore
    }
}

/// The manager after an effect.
pub open spec fn after_effect(manager: ManagerView, effect: BusEffect) -> ManagerView {
    match effect {
        BusEffect::Focus(project, apps) => ManagerView {
            dnd: DndView { focus: FocusView::on(project, apps), ..manager.dnd },
            ..manager
        },
        BusEffect::Unfocus => ManagerView {
            dnd: DndView { focus: FocusView::inactive(), ..manager.dnd },
            ..manager
        },
        BusEffect::Fullscreen(active) => ManagerView {
            dnd: DndView { fullscreen_active: active, ..manager.dnd },
            queue: if active {
                manager.queue
            } else {
                Seq::empty()
            },
            ..manager
        },
        BusEffect::Ignore => manager,
    }
}

/// The events to broadcast after an effect: the flushed queue when fullscreen
/// ends, nothing otherwise.
pub open spec fn effect_events(manager: ManagerView, effect: BusEffect) -> Seq<NotifyEventView> {
    if effect == BusEffect::Fullscreen(false) {
        manager.flushed().map_values(|n: NotificationView| NotifyEventView::Added(n))
    } else {
        Seq::empty()
    }
}

/// Whether events of a type carry a focus payload.
pub fn carries_focus(event_type: &str) -> (r: bool)
    ensures
        r == (event_type@ == "focus.activated"@),
{
    str_eq(event_type, "focus.activated")
}

/// Apply an event of the bus to the manager. The result holds the events to
/// broadcast.
pub fn dispatch(
    event_type: &str,
    payload: Option<FocusPayload>,
    manager: &mut NotificationManager,
) -> (r: Vec<NotifyEvent>)
    ensures
        final(manager)@ == after_effect(old(manager)@, bus_effect(event_type@, payload)),
        events(r@) == effect_events(old(manager)@, bus_effect(event_type@, payload)),
{
    let none: Vec<NotifyEvent> = Vec::new();
    assert(events(none@) =~= Seq::empty());
    if carries_focus(event_type) {
        if let Some(p) = payload {
            manager.activate_focus(p.project_id, p.suppress_notifications_from);
        }
        none
    } else if str_eq(event_type, "focus.deactivated") {
        manager.deactivate_focus();
        none
    } else if str_eq(event_type, "window.fullscreen_entered") {
        manager.set_fullscreen(true)
    } else if str_eq(event_type, "window.fullscreen_exited") {
        manager.set_fullscreen(false)
    } else {
        none
    }
}

/// Leaving focus undoes entering it, as far as anything but focus goes, and
/// leaves focus inactive.
pub proof fn unfocus_ends_focus(manager: ManagerView, project: Seq<char>, apps: Seq<Seq<char>>)
    ensures
        after_effect(
            after_effect(manager, BusEffect::Focus(project, apps)),
            BusEffect::Unfocus,
        ) == (ManagerView {
            dnd: DndView { focus: FocusView::inactive(), ..manager.dnd },
            ..manager
        }),
{
}

/// A window that leaves fullscreen after nothing arrived shows what was queued
/// before, and leaves the queue empty.
pub proof fn leaving_fullscreen_empties_the_queue(manager: ManagerView)
    ensures
        ({
            let entered = after_effect(manager, BusEffect::Fullscreen(true));
            let left = after_effect(entered, BusEffect::Fullscreen(false));
            &&& effect_events(manager, BusEffect::Fullscreen(true)).len() == 0
            &&& effect_events(entered, BusEffect::Fullscreen(false)).len()
                == manager.flushed().len()
            &&& left.queue.len() == 0
            &&& !left.dnd.fullscreen_active
        }),
{
}

/// A focus event whose payload could not be decoded changes nothing.
pub proof fn undecodable_focus_is_skipped(manager: ManagerView)
    ensures
        after_effect(manager, bus_effect("focus.activated"@, None)) == manager,
        effect_events(manager, bus_effect("focus.activated"@, None)).len() == 0,
{
}

/// The four types of events that ask for something, and what they ask for; an
/// event of any other type asks for nothing.
pub proof fn four_event_types_count(event_type: Seq<char>, payload: FocusPayload)
    ensures
        bus_effect("focus.activated"@, Some(payload)) == BusEffect::Focus(
            payload.project_id@,
            texts(payload.suppress_notifications_from@),
        ),
        bus_effect("focus.deactivated"@, Some(payload)) == BusEffect::Unfocus,
        bus_effect("focus.deactivated"@, None) == BusEffect::Unfocus,
        bus_effect("window.fullscreen_entered"@, None) == BusEffect::Fullscreen(true),
        bus_effect("window.fullscreen_exited"@, None) == BusEffect::Fullscreen(false),
        event_type != "focus.activated"@ ==> bus_effect(event_type, Some(payload)) == bus_effect(
            event_type,
            None,
        ),
        event_type != "focus.activated"@ && event_type != "focus.deactivated"@ && event_type
            != "window.fullscreen_entered"@ && event_type != "window.fullscreen_exited"@
            ==> bus_effect(event_type, Some(payload)) == BusEffect::Ignore,
{
    reveal_strlit("focus.activated");
    reveal_strlit("focus.deactivated");
    reveal_strlit("window.fullscreen_entered");
    reveal_strlit("window.fullscreen_exited");
    assert("focus.activated"@.len() == 15 && "focus.deactivated"@.len() == 17);
    assert("window.fullscreen_entered"@.len() == 25 && "window.fullscreen_exited"@.len() == 24);
}

/// Every effect changes what it is for and leaves the rest alone: the rate
/// limiter, the configuration and the mode always, fullscreen and the queue
/// under focus effects, and focus under fullscreen effects.
pub proof fn effects_keep_to_themselves(manager: ManagerView, effect: BusEffect)
    ensures
        ({
            let after = after_effect(manager, effect);
            &&& after.limiter == manager.limiter
            &&& after.config == manager.config
            &&& after.dnd_mode == manager.dnd_mode
            &&& effect matches BusEffect::Fullscreen(active) ==> after.dnd.focus
                == manager.dnd.focus && after.dnd.fullscreen_active == active
            &&& !(effect is Fullscreen) ==> after.dnd.fullscreen_active
                == manager.dnd.fullscreen_active && after.queue == manager.queue
            &&& effect matches BusEffect::Focus(project, apps) ==> after.dnd.focus == FocusView::on(
                project,
                apps,
            )
            &&& effect is Unfocus ==> after.dnd.focus == FocusView::inactive()
            &&& effect is Ignore ==> after == manager
            &&& effect == BusEffect::Fullscreen(true) ==> after.queue == manager.queue
        }),
{
}

/// When fullscreen ends, the oldest queued notifications are shown, up to five
/// and in order; no other effect shows anything.
pub proof fn leaving_fullscreen_shows_the_oldest(manager: ManagerView, effect: BusEffect)
    ensures
        ({
            let shown = effect_events(manager, effect);
            &&& effect != BusEffect::Fullscreen(false) ==> shown.len() == 0
            &&& effect == BusEffect::Fullscreen(false) ==> shown.len() == (if manager.queue.len()
                <= 5 {
                manager.queue.len()
            } else {
                5
            }) && forall|i: int|
                0 <= i < shown.len() ==> #[trigger] shown[i] == NotifyEventView::Added(
                    manager.queue[i],
                )
        }),
{
}

} // verus!
