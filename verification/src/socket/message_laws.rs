//! What holds of every frame and every message exchanged with the shell.

use crate::config::DndMode;
use crate::dbus::server::{
    pair_texts, CloseReason, Notification, NotificationView, NotifyEventView, Priority,
};
use crate::manager::notification::contents;
use crate::socket::proto;
use crate::socket::proto::client_message;
use crate::socket::proto::server_message::MsgView;
use crate::socket::proto::types::{action_texts, wires};
use crate::socket::protocol::{
    be_bytes, be_number, first_frame, frame, too_large_to_read, too_large_to_send, wire_of,
    wire_priority, FrameView,
};
use crate::socket::server::{
    alive, announcement, client_outcome, dismissals, mode_number, number_mode, query_of, sent,
    unless_empty, unread, Answer,
};
use crate::storage::sqlite::{
    SqlArg, MARK_READ_SQL, SELECT_APPS_SQL, SELECT_APP_HISTORY_SQL, SELECT_HISTORY_SQL,
    SELECT_PENDING_SQL,
};
use crate::text::decimal_text;
use vstd::prelude::*;

verus! {

/// The number of a header counts in its last byte, and moving every byte one
/// place up multiplies it by 256.
pub proof fn header_is_big_endian(a: u8, b: u8, c: u8, d: u8)
    ensures
        be_number(seq![0u8, 0u8, 0u8, d]) == d,
        be_number(seq![b, c, d, 0u8]) == 256 * be_number(seq![0u8, b, c, d]),
        be_number(seq![a, b, c, d]) == be_number(seq![a, 0u8, 0u8, 0u8]) + be_number(
            seq![0u8, b, c, d],
        ),
        be_number(seq![a, b, c, d]) == be_number(seq![a, b, c, 0u8]) + d,
{
}

/// A frame is a header of four bytes that holds the length of the body, most
/// significant byte first, and the body as it is.
pub proof fn frame_is_length_and_body(body: Seq<u8>)
    requires
        body.len() <= 1_048_576,
    ensures
        frame(body).len() == 4 + body.len(),
        frame(body)[0] * 16_777_216 + frame(body)[1] * 65_536 + frame(body)[2] * 256
            + frame(body)[3] == body.len(),
        frame(body).skip(4) == body,
{
    assert(frame(body).skip(4) =~= body);
    assert(be_bytes(body.len() as u32).len() == 4);
}

/// What a stream begins with: less than a header is an end; a header beyond
/// 1 MB is refused with its number; a body that is cut off is an error; else
/// the body is what follows the header.
pub proof fn stream_begins_with(stream: Seq<u8>)
    ensures
        first_frame(stream) is End <==> stream.len() < 4,
        first_frame(stream) is TooLarge <==> stream.len() >= 4 && be_number(stream) > 1_048_576,
        first_frame(stream) matches FrameView::TooLarge(len) ==> len == be_number(stream),
        first_frame(stream) is Truncated <==> stream.len() >= 4 && be_number(stream) <= 1_048_576
            && stream.len() < 4 + be_number(stream),
        first_frame(stream) matches FrameView::Body(body) ==> body.len() == be_number(stream)
            && forall|i: int| 0 <= i < body.len() ==> #[trigger] body[i] == stream[4 + i],
{
}

/// Both refusals of a large message name its size; the one on sending names the
/// maximum too.
pub proof fn refusals_name_the_size(len: nat)
    ensures
        too_large_to_read(len) == "message too large: "@ + decimal_text(len) + " bytes"@,
        too_large_to_send(len) == too_large_to_read(len) + " (max "@ + decimal_text(1_048_576)
            + ")"@,
{
    reveal_strlit(" bytes (max ");
    reveal_strlit(" bytes");
    reveal_strlit(" (max ");
    assert(" bytes (max "@ =~= " bytes"@ + " (max "@);
    let limit = decimal_text(1_048_576);
    assert(too_large_to_send(len) =~= too_large_to_read(len) + " (max "@ + limit + ")"@);
}

/// The message sent for a notification has each of its fields under the same
/// name, the same actions in the same order, and the number of its priority.
pub proof fn message_has_every_field(n: NotificationView)
    ensures
        wire_of(n).id == n.id,
        wire_of(n).app_name == n.app_name,
        wire_of(n).summary == n.summary,
        wire_of(n).body == n.body,
        wire_of(n).app_icon == n.app_icon,
        wire_of(n).actions.len() == n.actions.len(),
        forall|i: int|
            0 <= i < n.actions.len() ==> (#[trigger] wire_of(n).actions[i]).0 == n.actions[i].0,
        forall|i: int|
            0 <= i < n.actions.len() ==> (#[trigger] wire_of(n).actions[i]).1 == n.actions[i].1,
        wire_of(n).priority == n.priority.rank(),
        wire_of(n).category == n.category,
        wire_of(n).timestamp == n.timestamp,
        wire_of(n).read == n.read,
{
}

/// Priorities are numbered from 0 in their order.
pub proof fn priorities_are_numbered_in_order(p: Priority, q: Priority)
    ensures
        wire_priority(Priority::Low) == 0,
        wire_priority(Priority::Normal) == 1,
        wire_priority(Priority::High) == 2,
        wire_priority(Priority::Critical) == 3,
        wire_priority(p) < wire_priority(q) <==> p.rank() < q.rank(),
{
}

/// A sent notification and the one it was made of, field by field.
pub proof fn sent_notification_has_every_field(message: proto::Notification, n: Notification)
    requires
        message@ == wire_of(n@),
    ensures
        message.id == n.id,
        message.app_name@ == n.app_name@,
        message.summary@ == n.summary@,
        message.body@ == n.body@,
        message.app_icon@ == n.app_icon@,
        message.actions@.len() == n.actions@.len(),
        forall|i: int|
            0 <= i < n.actions@.len() ==> (#[trigger] message.actions@[i]).key@
                == n.actions@[i].0@,
        forall|i: int|
            0 <= i < n.actions@.len() ==> (#[trigger] message.actions@[i]).label@
                == n.actions@[i].1@,
        message.priority == n.priority.rank(),
        message.category@ == n.category@,
        message.timestamp@ == n.timestamp@,
        message.read == n.read,
{
    assert(action_texts(message.actions@).len() == pair_texts(n.actions@).len());
    assert forall|i: int| 0 <= i < n.actions@.len() implies (#[trigger] message.actions@[i]).key@
        == n.actions@[i].0@ && message.actions@[i].label@ == n.actions@[i].1@ by {
        assert(action_texts(message.actions@)[i] == pair_texts(n.actions@)[i]);
    }
}

/// The numbers of the DND modes on the wire, and the modes that they stand for:
/// 1 comes from old shells, and an unknown number stands for off.
pub proof fn modes_on_the_wire(value: i32)
    ensures
        mode_number(DndMode::Off) == 0,
        mode_number(DndMode::Scheduled) == 2,
        mode_number(DndMode::Priority) == 3,
        mode_number(DndMode::Alarms) == 4,
        mode_number(DndMode::Total) == 5,
        number_mode(value) == DndMode::Scheduled <==> value == 2,
        number_mode(value) == DndMode::Priority <==> value == 1 || value == 3,
        number_mode(value) == DndMode::Alarms <==> value == 4,
        number_mode(value) == DndMode::Total <==> value == 5,
        number_mode(value) == DndMode::Off <==> value < 1 || value > 5,
{
}

/// Each event is announced by a message of its own kind, with what the event
/// holds.
pub proof fn announcement_tells_the_event(event: NotifyEventView)
    ensures
        event matches NotifyEventView::Added(n) ==> announcement(event) == MsgView::Added(
            Some(wire_of(n)),
        ),
        event matches NotifyEventView::Closed { id, reason } ==> announcement(event)
            matches MsgView::Closed { id: told, reason: code } && told == id && code == (match reason {
            CloseReason::Expired => 1int,
            CloseReason::Dismissed => 2,
            CloseReason::Closed => 3,
            CloseReason::Undefined => 4,
        }),
        event matches NotifyEventView::ActionInvoked { id, action_key } ==> announcement(event)
            == (MsgView::ActionInvoked { id, action_key }),
        event matches NotifyEventView::Read { id } ==> announcement(event) == (
        MsgView::NotificationRead { id }),
        event is AllCleared ==> announcement(event) is AllCleared,
        event matches NotifyEventView::DndChanged { mode } ==> announcement(event)
            matches MsgView::DndChanged { mode: number } && number_mode(number) == mode,
{
}

/// Different events are announced differently, except notifications that
/// differ only in what is not sent: the urgency hint and the timeout.
pub proof fn announcements_differ(a: NotifyEventView, b: NotifyEventView)
    requires
        announcement(a) == announcement(b),
    ensures
        a == b || a is Added && b is Added && a->Added_0 == (NotificationView {
            urgency: a->Added_0.urgency,
            expire_timeout: a->Added_0.expire_timeout,
            ..b->Added_0
        }),
{
    if let (NotifyEventView::Added(m), NotifyEventView::Added(n)) = (a, b) {
        assert(wire_of(m) == wire_of(n));
        assert(wire_of(m).id == wire_of(n).id);
        assert(wire_of(m).priority == wire_of(n).priority);
    }
}

/// A list of notifications is sent in order, each as its own message.
pub proof fn lists_are_sent_in_order(list: Seq<NotificationView>)
    ensures
        sent(list).len() == list.len(),
        forall|i: int| 0 <= i < list.len() ==> #[trigger] sent(list)[i] == wire_of(list[i]),
{
}

/// The unread count of a list is the number of its notifications that are not
/// read.
pub proof fn unread_counts_what_is_not_read(list: Seq<NotificationView>)
    ensures
        unread(list) == list.filter(|n: NotificationView| !n.read).len(),
    decreases list.len(),
{
    reveal(Seq::filter);
    if list.len() > 0 {
        unread_counts_what_is_not_read(list.drop_last());
    }
}

/// Clearing dismisses each notification of the list once, in order, by its ID
/// and as dismissed by the user.
pub proof fn clearing_dismisses_each(list: Seq<NotificationView>)
    ensures
        dismissals(list).len() == list.len(),
        forall|i: int|
            0 <= i < list.len() ==> (#[trigger] dismissals(list)[i]).args == seq![
                SqlArg::Int(2),
                SqlArg::Int(list[i].id as i64),
            ],
{
}

/// What a greeting is answered: all pending notifications, how many of them are
/// not read, and the DND mode.
pub proof fn greeting_is_answered_with_the_state(
    message: proto::ClientMessage,
    list: Vec<Notification>,
    dnd_mode: DndMode,
)
    requires
        message.msg matches Some(client_message::Msg::Hello(_)),
    ensures
        query_of(message) matches Some(query) && query.sql == SELECT_PENDING_SQL@
            && query.args.len() == 0,
        client_outcome(message, Answer::Notifications(list), dnd_mode).response == Some(
            Some(
                MsgView::Sync {
                    pending: sent(contents(list@)),
                    unread_count: contents(list@).filter(|n: NotificationView| !n.read).len() as u32,
                    dnd_mode: mode_number(dnd_mode),
                },
            ),
        ),
{
    unread_counts_what_is_not_read(contents(list@));
}

/// What a request for history asks of the database and is answered: the limit
/// is bound last; an empty cursor or app does not count; the page is sent in
/// order; and there is more exactly if the page is full.
pub proof fn history_is_answered_with_a_page(
    message: proto::ClientMessage,
    request: proto::GetHistory,
    list: Vec<Notification>,
    dnd_mode: DndMode,
)
    requires
        message.msg == Some(client_message::Msg::GetHistory(request)),
    ensures
        query_of(message) matches Some(query) && query.args.last() == SqlArg::Int(
            request.limit as i64,
        ) && query.sql == (if request.app_name@.len() == 0 {
            SELECT_HISTORY_SQL@
        } else {
            SELECT_APP_HISTORY_SQL@
        }) && query.args.len() == (if request.app_name@.len() == 0 {
            2int
        } else {
            3
        }) && (request.app_name@.len() > 0 ==> query.args[1] == SqlArg::Text(request.app_name@))
            && query.args[0] == SqlArg::Text(
            if request.before_timestamp@.len() == 0 {
                "9999-12-31T23:59:59Z"@
            } else {
                request.before_timestamp@
            },
        ),
        client_outcome(message, Answer::Notifications(list), dnd_mode).response == Some(
            Some(
                MsgView::History {
                    notifications: sent(contents(list@)),
                    has_more: list@.len() == request.limit,
                },
            ),
        ),
{
}

/// What a request for the known apps asks of the database and is answered: the
/// names as the database gives them.
pub proof fn known_apps_are_passed_on(
    message: proto::ClientMessage,
    names: Vec<String>,
    dnd_mode: DndMode,
)
    requires
        message.msg matches Some(client_message::Msg::GetKnownApps(_)),
    ensures
        query_of(message) matches Some(query) && query.sql == SELECT_APPS_SQL@
            && query.args.len() == 0,
        client_outcome(message, Answer::AppNames(names), dnd_mode).response matches Some(Some(said))
            && said matches MsgView::KnownApps { app_names } && app_names.len() == names@.len()
            && forall|i: int| 0 <= i < names@.len() ==> #[trigger] app_names[i] == names@[i]@,
{
}

/// What a dismissal, a mark and an action do: the dismissal and the mark change
/// the one notification they name, and all three are announced under its ID.
pub proof fn requests_on_one_notification_keep_its_id(
    message: proto::ClientMessage,
    answer: Answer,
    dnd_mode: DndMode,
)
    ensures
        ({
            let outcome = client_outcome(message, answer, dnd_mode);
            &&& message.msg matches Some(client_message::Msg::Dismiss(d)) ==> outcome.event == Some(
                NotifyEventView::Closed { id: d.id, reason: CloseReason::Dismissed },
            ) && outcome.statements.len() == 1 && outcome.statements[0].args == seq![
                SqlArg::Int(2),
                SqlArg::Int(d.id as i64),
            ]
            &&& message.msg matches Some(client_message::Msg::MarkRead(m)) ==> outcome.event == Some(
                NotifyEventView::Read { id: m.id },
            ) && outcome.statements.len() == 1 && outcome.statements[0].sql == MARK_READ_SQL@
                && outcome.statements[0].args == seq![SqlArg::Int(m.id as i64)]
            &&& message.msg matches Some(client_message::Msg::InvokeAction(a)) ==> outcome.event
                == Some(
                NotifyEventView::ActionInvoked { id: a.id, action_key: a.action_key@ },
            ) && outcome.statements.len() == 0
        }),
{
}

/// What clearing does: every notification of the answer is dismissed, and that
/// all are cleared is announced.
pub proof fn clearing_is_announced(
    message: proto::ClientMessage,
    list: Vec<Notification>,
    dnd_mode: DndMode,
)
    requires
        message.msg matches Some(client_message::Msg::ClearAll(_)),
    ensures
        query_of(message) matches Some(query) && query.sql == SELECT_PENDING_SQL@
            && query.args.len() == 0,
        ({
            let outcome = client_outcome(message, Answer::Notifications(list), dnd_mode);
            &&& outcome.event == Some(NotifyEventView::AllCleared)
            &&& outcome.statements.len() == list@.len()
            &&& forall|i: int|
                0 <= i < list@.len() ==> (#[trigger] outcome.statements[i]).args == seq![
                    SqlArg::Int(2),
                    SqlArg::Int(list@[i].id as i64),
                ]
        }),
{
}

/// Only a request to set the DND mode sets it, to the mode of its number, which
/// is announced.
pub proof fn only_set_dnd_sets_the_mode(
    message: proto::ClientMessage,
    answer: Answer,
    dnd_mode: DndMode,
)
    ensures
        ({
            let outcome = client_outcome(message, answer, dnd_mode);
            &&& outcome.mode is Some <==> (message.msg matches Some(client_message::Msg::SetDnd(_)))
            &&& message.msg matches Some(client_message::Msg::SetDnd(s)) ==> outcome.mode == Some(
                number_mode(s.mode),
            ) && outcome.event == Some(NotifyEventView::DndChanged { mode: number_mode(s.mode) })
                && outcome.statements.len() == 0
        }),
{
}

/// Only greetings, clearings and requests for history or known apps need a
/// query, and only dismissals, marks and clearings change the database.
pub proof fn few_messages_touch_the_database(
    message: proto::ClientMessage,
    answer: Answer,
    dnd_mode: DndMode,
)
    ensures
        query_of(message) is Some <==> (message.msg matches Some(m) && (m is Hello || m is ClearAll
            || m is GetHistory || m is GetKnownApps)),
        client_outcome(message, answer, dnd_mode).statements.len() > 0 ==> (message.msg matches Some(
            m,
        ) && (m is Dismiss || m is MarkRead || m is ClearAll)),
{
}

/// An answer of the wrong kind, or none, counts as empty.
pub proof fn answers_of_the_wrong_kind_are_empty(list: Vec<Notification>, names: Vec<String>)
    ensures
        Answer::AppNames(names).notifications().len() == 0,
        Answer::Nothing.notifications().len() == 0,
        Answer::Notifications(list).app_names().len() == 0,
        Answer::Nothing.app_names().len() == 0,
        Answer::Notifications(list).notifications() == contents(list@),
{
}

/// A text counts exactly if it is not empty.
pub proof fn empty_texts_do_not_count(text: Seq<char>)
    ensures
        unless_empty(text) is Some <==> text.len() > 0,
        unless_empty(text) matches Some(t) ==> t == text,
{
}

/// Removal keeps the clients whose flag is set, in order: each client on its
/// own, and two groups of clients one after the other.
pub proof fn removal_goes_client_by_client<T>(
    client: T,
    flag: bool,
    a: Seq<T>,
    a_flags: Seq<bool>,
    b: Seq<T>,
    b_flags: Seq<bool>,
)
    requires
        a.len() == a_flags.len(),
        b.len() == b_flags.len(),
    ensures
        alive(seq![client], seq![flag]) == (if flag {
            seq![client]
        } else {
            Seq::empty()
        }),
        alive(a + b, a_flags + b_flags) == alive(a, a_flags) + alive(b, b_flags),
    decreases a.len(),
{
    assert(seq![client].drop_first() =~= Seq::<T>::empty());
    assert(alive(seq![client].drop_first(), seq![flag].drop_first()) =~= Seq::<T>::empty());
    assert(seq![client] + Seq::<T>::empty() =~= seq![client]);
    if a.len() == 0 {
        assert(a + b =~= b);
        assert(a_flags + b_flags =~= b_flags);
        assert(alive(a, a_flags) + alive(b, b_flags) =~= alive(b, b_flags));
    } else {
        removal_goes_client_by_client(
            client,
            flag,
            a.drop_first(),
            a_flags.drop_first(),
            b,
            b_flags,
        );
        assert((a + b).drop_first() =~= a.drop_first() + b);
        assert((a_flags + b_flags).drop_first() =~= a_flags.drop_first() + b_flags);
        assert(alive(a + b, a_flags + b_flags) =~= alive(a, a_flags) + alive(b, b_flags));
    }
}

/// Sent lists and stored lists have the contents of their elements, in order.
pub proof fn contents_are_in_order(list: Seq<Notification>, messages: Seq<proto::Notification>)
    ensures
        contents(list).len() == list.len(),
        forall|i: int| 0 <= i < list.len() ==> #[trigger] contents(list)[i] == list[i]@,
        wires(messages).len() == messages.len(),
        forall|i: int| 0 <= i < messages.len() ==> #[trigger] wires(messages)[i] == messages[i]@,
{
}

} // verus!
