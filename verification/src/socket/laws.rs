//! What each shell client has been sent after a series of events.
//!
//! For every event the message of [`broadcast_message`] is framed by
//! [`encode_message`] and written to all connected clients; those that could
//! not be written to are removed by [`remove_dead`].
//!
//! [`broadcast_message`]: crate::socket::server::broadcast_message
//! [`encode_message`]: crate::socket::protocol::encode_message
//! [`remove_dead`]: crate::socket::server::remove_dead

use crate::dbus::server::NotifyEventView;
use crate::socket::proto::server_message::MsgView;
use crate::socket::protocol::{frame, MAX_MESSAGE_SIZE};
use crate::socket::server::{alive, announcement};
use vstd::prelude::*;

verus! {

/// The connected clients, each by a number of its own, and the frames that each
/// client has been sent so far.
pub struct Audience {
    pub clients: Seq<nat>,
    /// Every number has an entry.
    pub sent: Map<nat, Seq<Seq<u8>>>,
}

/// Whether the message of an event can be sent: its body, as encoded, keeps to
/// the maximum size.
pub open spec fn fits(event: NotifyEventView, encoding: spec_fn(MsgView) -> Seq<u8>) -> bool {
    encoding(announcement(event)).len() <= MAX_MESSAGE_SIZE
}

/// The frame that clients are sent for an event.
pub open spec fn frame_of(event: NotifyEventView, encoding: spec_fn(MsgView) -> Seq<u8>) -> Seq<
    u8,
> {
    frame(encoding(announcement(event)))
}

/// The audience after one event, given which clients can be written to: these
/// have been sent its frame, and the others are gone. An event whose message is
/// too large is skipped.
pub open spec fn after_event(
    audience: Audience,
    event: NotifyEventView,
    encoding: spec_fn(MsgView) -> Seq<u8>,
    writable: spec_fn(nat) -> bool,
) -> Audience {
    if !fits(event, encoding) {
        audience
    } else {
        Audience {
            clients: alive(audience.clients, audience.clients.map_values(writable)),
            sent: Map::new(
                |c: nat| true,
                |c: nat|
                    if audience.clients.contains(c) && writable(c) {
                        audience.sent[c].push(frame_of(event, encoding))
                    } else {
                        audience.sent[c]
                    },
            ),
        }
    }
}

/// The audience after a series of events. `writable(c, i)` tells whether client
/// `c` can be written to at event `i`.
pub open spec fn after_events(
    audience: Audience,
    events: Seq<NotifyEventView>,
    encoding: spec_fn(MsgView) -> Seq<u8>,
    writable: spec_fn(nat, int) -> bool,
) -> Audience
    decreases events.len(),
{
    if events.len() == 0 {
        audience
    } else {
        after_event(
            after_events(audience, events.drop_last(), encoding, writable),
            events.last(),
            encoding,
            |c: nat| writable(c, events.len() - 1),
        )
    }
}

/// The frames of a series of events, without those that are skipped.
pub open spec fn frames_of(
    events: Seq<NotifyEventView>,
    encoding: spec_fn(MsgView) -> Seq<u8>,
) -> Seq<Seq<u8>>
    decreases events.len(),
{
    if events.len() == 0 {
        Seq::empty()
    } else {
        let earlier = frames_of(events.drop_last(), encoding);
        if fits(events.last(), encoding) {
            earlier.push(frame_of(events.last(), encoding))
        } else {
            earlier
        }
    }
}

/// The number of events before the first one whose frame could not be written
/// to a client; all of them if there is none.
pub open spec fn reached(
    client: nat,
    events: Seq<NotifyEventView>,
    encoding: spec_fn(MsgView) -> Seq<u8>,
    writable: spec_fn(nat, int) -> bool,
) -> nat
    decreases events.len(),
{
    if events.len() == 0 {
        0
    } else {
        let last = (events.len() - 1) as nat;
        let earlier = reached(client, events.drop_last(), encoding, writable);
        if earlier < last || (fits(events.last(), encoding) && !writable(client, last as int)) {
            earlier
        } else {
            events.len()
        }
    }
}

/// Removal keeps exactly the writable clients.
proof fn lemma_alive_contains(clients: Seq<nat>, writable: spec_fn(nat) -> bool, c: nat)
    ensures
        alive(clients, clients.map_values(writable)).contains(c) <==> clients.contains(c)
            && writable(c),
    decreases clients.len(),
{
    let kept = alive(clients, clients.map_values(writable));
    if clients.len() > 0 {
        let rest = clients.drop_first();
        let later = alive(rest, rest.map_values(writable));
        lemma_alive_contains(rest, writable, c);
        assert(clients.map_values(writable).drop_first() =~= rest.map_values(writable));
        assert(clients =~= seq![clients[0]] + rest);
        if clients.contains(c) {
            let i = clients.index_of(c);
            if i > 0 {
                assert(rest[i - 1] == c);
            }
        }
        if rest.contains(c) {
            let i = rest.index_of(c);
            assert(clients[i + 1] == c);
        }
        if writable(clients[0]) {
            assert(kept =~= seq![clients[0]] + later);
            if kept.contains(c) {
                let i = kept.index_of(c);
                if i > 0 {
                    assert(later[i - 1] == c);
                }
            }
            if later.contains(c) {
                let i = later.index_of(c);
                assert(kept[i + 1] == c);
            }
            assert(kept[0] == clients[0]);
        }
    }
}

/// Broadcasting: a connected client has been sent the frames of all events, in
/// order and each once, up to the first one that could not be written to it;
/// after that nothing more. It stays connected exactly if every write
/// succeeded. What happens to one client depends on no other.
pub proof fn each_client_is_sent_every_event(
    audience: Audience,
    client: nat,
    events: Seq<NotifyEventView>,
    encoding: spec_fn(MsgView) -> Seq<u8>,
    writable: spec_fn(nat, int) -> bool,
)
    requires
        audience.clients.contains(client),
    ensures
        ({
            let after = after_events(audience, events, encoding, writable);
            let count = reached(client, events, encoding, writable);
            &&& count <= events.len()
            &&& after.sent[client] == audience.sent[client] + frames_of(
                events.take(count as int),
                encoding,
            )
            &&& after.clients.contains(client) <==> count == events.len()
        }),
    decreases events.len(),
{
    if events.len() == 0 {
        assert(events.take(0) =~= events);
        assert(audience.sent[client] + frames_of(events, encoding) =~= audience.sent[client]);
    } else {
        let earlier = events.drop_last();
        let before = after_events(audience, earlier, encoding, writable);
        let last = events.len() - 1;
        each_client_is_sent_every_event(audience, client, earlier, encoding, writable);
        lemma_alive_contains(before.clients, |c: nat| writable(c, last), client);
        let count = reached(client, events, encoding, writable);
        assert(earlier.take(last) =~= earlier);
        assert(events.take(events.len() as int) =~= events);
        if count < events.len() {
            assert(earlier.take(count as int) =~= events.take(count as int));
        } else if fits(events.last(), encoding) {
            assert(audience.sent[client] + frames_of(events, encoding) =~= (audience.sent[client]
                + frames_of(earlier, encoding)).push(frame_of(events.last(), encoding)));
        }
    }
}

/// A client to which every write succeeds is sent exactly one frame for each
/// event, in order, where all messages keep to the maximum size, and stays
/// connected.
pub proof fn faithful_client_is_sent_one_frame_per_event(
    audience: Audience,
    client: nat,
    events: Seq<NotifyEventView>,
    encoding: spec_fn(MsgView) -> Seq<u8>,
    writable: spec_fn(nat, int) -> bool,
)
    requires
        audience.clients.contains(client),
        forall|i: int| 0 <= i < events.len() ==> #[trigger] writable(client, i),
        forall|i: int| 0 <= i < events.len() ==> fits(#[trigger] events[i], encoding),
    ensures
        ({
            let after = after_events(audience, events, encoding, writable);
            &&& after.sent[client] == audience.sent[client] + events.map_values(
                |e: NotifyEventView| frame_of(e, encoding),
            )
            &&& after.clients.contains(client)
        }),
{
    each_client_is_sent_every_event(audience, client, events, encoding, writable);
    lemma_all_reached(client, events, encoding, writable);
    lemma_frames_of_fitting(events, encoding);
    assert(events.take(events.len() as int) =~= events);
}

proof fn lemma_all_reached(
    client: nat,
    events: Seq<NotifyEventView>,
    encoding: spec_fn(MsgView) -> Seq<u8>,
    writable: spec_fn(nat, int) -> bool,
)
    requires
        forall|i: int| 0 <= i < events.len() ==> #[trigger] writable(client, i),
    ensures
        reached(client, events, encoding, writable) == events.len(),
    decreases events.len(),
{
    if events.len() > 0 {
        lemma_all_reached(client, events.drop_last(), encoding, writable);
        assert(writable(client, events.len() - 1));
    }
}

proof fn lemma_frames_of_fitting(
    events: Seq<NotifyEventView>,
    encoding: spec_fn(MsgView) -> Seq<u8>,
)
    requires
        forall|i: int| 0 <= i < events.len() ==> fits(#[trigger] events[i], encoding),
    ensures
        frames_of(events, encoding) == events.map_values(
            |e: NotifyEventView| frame_of(e, encoding),
        ),
    decreases events.len(),
{
    let mapped = events.map_values(|e: NotifyEventView| frame_of(e, encoding));
    if events.len() > 0 {
        let earlier = events.drop_last();
        assert forall|i: int| 0 <= i < earlier.len() implies fits(
            #[trigger] earlier[i],
            encoding,
        ) by {
            assert(earlier[i] == events[i]);
        }
        lemma_frames_of_fitting(earlier, encoding);
        assert(fits(events[events.len() - 1], encoding));
        assert(mapped =~= earlier.map_values(|e: NotifyEventView| frame_of(e, encoding)).push(
            frame_of(events.last(), encoding),
        ));
    } else {
        assert(mapped =~= Seq::empty());
    }
}

/// A client that is not connected, such as one that was removed, is sent
/// nothing.
pub proof fn removed_client_is_sent_nothing(
    audience: Audience,
    client: nat,
    events: Seq<NotifyEventView>,
    encoding: spec_fn(MsgView) -> Seq<u8>,
    writable: spec_fn(nat, int) -> bool,
)
    requires
        !audience.clients.contains(client),
    ensures
        ({
            let after = after_events(audience, events, encoding, writable);
            &&& after.sent[client] == audience.sent[client]
            &&& !after.clients.contains(client)
        }),
    decreases events.len(),
{
    if events.len() > 0 {
        let earlier = events.drop_last();
        let before = after_events(audience, earlier, encoding, writable);
        removed_client_is_sent_nothing(audience, client, earlier, encoding, writable);
        lemma_alive_contains(before.clients, |c: nat| writable(c, events.len() - 1), client);
    }
}

} // verus!
