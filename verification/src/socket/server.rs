//! Unix socket server for shell clients.
//!
//! Broadcasts server messages to all clients, and decides what each client
//! message asks of the database, of the other clients and of the reply.

use crate::config::DndMode;
use crate::dbus::server::{
    CloseReason, Notification, NotificationView, NotifyEvent, NotifyEventView,
};
use crate::manager::notification::contents;
use crate::socket::proto;
use crate::socket::proto::client_message;
use crate::socket::proto::server_message;
use crate::socket::proto::server_message::MsgView;
use crate::socket::proto::types::{wires, NotificationWire};
use crate::socket::protocol::wire_of;
use crate::storage::sqlite::{
    dismissal_of, history_query, plain, statements, Database, SqlArg, Statement, StatementView,
    MARK_READ_SQL, SELECT_APPS_SQL, SELECT_PENDING_SQL,
};
use crate::text::{decimal, decimal_text, join, texts};
use vstd::prelude::*;

verus! {

/// Socket server that manages shell client connections.
#[derive(Debug)]
pub struct SocketServer {
    path: String,
}

impl View for SocketServer {
    type V = Seq<char>;

    /// The path of the socket.
    closed spec fn view(&self) -> Seq<char> {
        self.path@
    }
}

impl SocketServer {
    /// Create a new socket server.
    pub fn new(path: String) -> (r: Self)
        ensures
            r@ == path@,
    {
        SocketServer { path }
    }

    /// The path of the socket.
    pub fn path(&self) -> (r: &str)
        ensures
            r@ == self@,
    {
        self.path.as_str()
    }

    /// Default socket path of a user: `/run/user/{uid}/lunaris/notification.sock`.
    pub fn default_path(uid: u32) -> (r: String)
        ensures
            r@ == "/run/user/"@ + decimal_text(uid as nat) + "/lunaris/notification.sock"@,
    {
        let number: String = decimal(uid as u64);
        let head: String = join("/run/user/", number.as_str());
        join(head.as_str(), "/lunaris/notification.sock")
    }
}

/// The wire value of a DND mode. Each mode has its own; `DndOn` is not used.
pub open spec fn mode_number(mode: DndMode) -> i32 {
    match mode {
        DndMode::Off => proto::DndMode::DndOff.spec_number(),
        DndMode::Priority => proto::DndMode::DndPriority.spec_number(),
        DndMode::Alarms => proto::DndMode::DndAlarms.spec_number(),
        DndMode::Total => proto::DndMode::DndTotal.spec_number(),
        DndMode::Scheduled => proto::DndMode::DndScheduled.spec_number(),
    }
}

/// The DND mode of a wire value. `DndOn` of old shells stands for `Priority`;
/// an unknown value for `Off`.
pub open spec fn number_mode(value: i32) -> DndMode {
    if value == proto::DndMode::DndPriority.spec_number() {
        DndMode::Priority
    } else if value == proto::DndMode::DndAlarms.spec_number() {
        DndMode::Alarms
    } else if value == proto::DndMode::DndTotal.spec_number() {
        DndMode::Total
    } else if value == proto::DndMode::DndScheduled.spec_number() {
        DndMode::Scheduled
    } else if value == proto::DndMode::DndOn.spec_number() {
        DndMode::Priority
    } else {
        DndMode::Off
    }
}

/// Map a `DndMode` to its proto wire value.
pub fn dnd_mode_to_proto(mode: DndMode) -> (r: i32)
    ensures
        r == mode_number(mode),
{
    match mode {
        DndMode::Off => proto::DndMode::DndOff.number(),
        DndMode::Priority => proto::DndMode::DndPriority.number(),
        DndMode::Alarms => proto::DndMode::DndAlarms.number(),
        DndMode::Total => proto::DndMode::DndTotal.number(),
        DndMode::Scheduled => proto::DndMode::DndScheduled.number(),
    }
}

/// Map a proto wire value to a `DndMode`.
pub fn proto_to_dnd_mode(value: i32) -> (r: DndMode)
    ensures
        r == number_mode(value),
{
    if value == proto::DndMode::DndPriority.number() {
        DndMode::Priority
    } else if value == proto::DndMode::DndAlarms.number() {
        DndMode::Alarms
    } else if value == proto::DndMode::DndTotal.number() {
        DndMode::Total
    } else if value == proto::DndMode::DndScheduled.number() {
        DndMode::Scheduled
    } else if value == proto::DndMode::DndOn.number() {
        // Old shell builds.
        DndMode::Priority
    } else {
        DndMode::Off
    }
}

/// A DND mode survives the wire.
pub proof fn mode_survives_the_wire(mode: DndMode)
    ensures
        number_mode(mode_number(mode)) == mode,
{
}

/// What clients are told of an event.
pub open spec fn announcement(event: NotifyEventView) -> MsgView {
    match event {
        NotifyEventView::Added(n) => MsgView::Added(Some(wire_of(n))),
        NotifyEventView::Closed { id, reason } => MsgView::Closed {
            id,
            reason: reason.spec_code() as i32,
        },
        NotifyEventView::ActionInvoked { id, action_key } => MsgView::ActionInvoked {
            id,
            action_key,
        },
        NotifyEventView::Read { id } => MsgView::NotificationRead { id },
        NotifyEventView::AllCleared => MsgView::AllCleared,
        NotifyEventView::DndChanged { mode } => MsgView::DndChanged { mode: mode_number(mode) },
    }
}

/// The message that tells clients of an event.
pub fn broadcast_message(event: &NotifyEvent) -> (r: proto::ServerMessage)
    ensures
        r.says() == Some(announcement(event@)),
        event matches NotifyEvent::Added(n) ==> r.msg matches Some(server_message::Msg::Added(m))
            && m.notification matches Some(w) && w.id == n.id && w.app_name@ == n.app_name@
            && w.summary@ == n.summary@ && w.body@ == n.body@ && w.app_icon@ == n.app_icon@
            && w.category@ == n.category@ && w.timestamp@ == n.timestamp@ && w.read == n.read
            && w.priority == n.priority.rank(),
        event matches NotifyEvent::Closed { id, reason } ==> r.msg matches Some(
            server_message::Msg::Closed(m),
        ) && m.id == id && m.reason == reason.spec_code(),
        event matches NotifyEvent::ActionInvoked { id, action_key } ==> r.msg matches Some(
            server_message::Msg::ActionInvoked(m),
        ) && m.id == id && m.action_key@ == action_key@,
        event matches NotifyEvent::Read { id } ==> r.msg matches Some(
            server_message::Msg::NotificationRead(m),
        ) && m.id == id,
        event is AllCleared ==> r.msg matches Some(server_message::Msg::AllCleared(_)),
        event matches NotifyEvent::DndChanged { mode } ==> r.msg matches Some(
            server_message::Msg::DndChanged(m),
        ) && m.mode == mode_number(*mode),
{
    let msg: server_message::Msg = match event {
        NotifyEvent::Added(n) => server_message::Msg::Added(
            proto::NotificationAdded { notification: Some(proto::Notification::from(n)) },
        ),
        NotifyEvent::Closed { id, reason } => server_message::Msg::Closed(
            proto::NotificationClosed { id: *id, reason: reason.code() as i32 },
        ),
        NotifyEvent::ActionInvoked { id, action_key } => server_message::Msg::ActionInvoked(
            proto::ActionInvoked { id: *id, action_key: action_key.clone() },
        ),
        NotifyEvent::Read { id } => server_message::Msg::NotificationRead(
            proto::NotificationRead { id: *id },
        ),
        NotifyEvent::AllCleared => server_message::Msg::AllCleared(proto::AllCleared {  }),
        NotifyEvent::DndChanged { mode } => server_message::Msg::DndChanged(
            proto::DndStateChanged { mode: dnd_mode_to_proto(*mode) },
        ),
    };
    proto::ServerMessage { msg: Some(msg) }
}

/// The items of a list whose flag is set, in order.
pub open spec fn alive<T>(items: Seq<T>, flags: Seq<bool>) -> Seq<T>
    decreases items.len(),
{
    if items.len() == 0 {
        Seq::empty()
    } else {
        let later = alive(items.drop_first(), flags.drop_first());
        if flags[0] {
            seq![items[0]] + later
        } else {
            later
        }
    }
}

/// Removes the clients that can no longer be written to, and keeps the others
/// in order.
pub fn remove_dead<T>(clients: &mut Vec<T>, writable: &Vec<bool>)
    requires
        old(clients)@.len() == writable@.len(),
    ensures
        final(clients)@ == alive(old(clients)@, writable@),
{
    let ghost all = clients@;
    let ghost flags = writable@;
    let mut i: usize = clients.len();
    assert(clients@ =~= all.take(i as int) + alive(all.skip(i as int), flags.skip(i as int)));
    while i > 0
        invariant
            i <= all.len(),
            all.len() == flags.len(),
            flags == writable@,
            clients@ == all.take(i as int) + alive(all.skip(i as int), flags.skip(i as int)),
        decreases i,
    {
        let ghost later = alive(all.skip(i as int), flags.skip(i as int));
        i -= 1;
        proof {
            assert(all.skip(i as int).drop_first() =~= all.skip(i + 1));
            assert(flags.skip(i as int).drop_first() =~= flags.skip(i + 1));
            assert(all.skip(i as int)[0] == all[i as int]);
            assert(flags.skip(i as int)[0] == flags[i as int]);
        }
        if !writable[i] {
            clients.remove(i);
            assert(clients@ =~= all.take(i as int) + later);
        } else {
            assert(clients@ =~= all.take(i as int) + (seq![all[i as int]] + later));
        }
    }
    assert(all.skip(0) =~= all);
    assert(flags.skip(0) =~= flags);
    assert(clients@ =~= alive(all, flags));
}

/// What the database answered to the query of a client message.
#[derive(Debug)]
pub enum Answer {
    /// The notifications of a query for notifications.
    Notifications(Vec<Notification>),
    /// The names of a query for known apps.
    AppNames(Vec<String>),
    /// Nothing: there was no query, or it failed.
    Nothing,
}

impl Answer {
    /// The notifications of the answer; none if it holds no notifications.
    pub open spec fn notifications(self) -> Seq<NotificationView> {
        match self {
            Answer::Notifications(list) => contents(list@),
            _ => Seq::empty(),
        }
    }

    /// The names of the answer; none if it holds no names.
    pub open spec fn app_names(self) -> Seq<Seq<char>> {
        match self {
            Answer::AppNames(list) => texts(list@),
            _ => Seq::empty(),
        }
    }
}

/// What is to be done about a client message.
#[derive(Debug)]
pub struct ClientOutcome {
    /// The statements to run on the database, in order.
    pub statements: Vec<Statement>,
    /// The DND mode to set, if it changes.
    pub mode: Option<DndMode>,
    /// The event to broadcast to all clients.
    pub event: Option<NotifyEvent>,
    /// The reply to the client.
    pub response: Option<proto::ServerMessage>,
}

/// The content of a [`ClientOutcome`].
pub struct ClientOutcomeView {
    pub statements: Seq<StatementView>,
    pub mode: Option<DndMode>,
    pub event: Option<NotifyEventView>,
    /// What the reply says, if there is a reply; a reply may say nothing.
    pub response: Option<Option<MsgView>>,
}

impl View for ClientOutcome {
    type V = ClientOutcomeView;

    open spec fn view(&self) -> ClientOutcomeView {
        ClientOutcomeView {
            statements: statements(self.statements@),
            mode: self.mode,
            event: match self.event {
                Some(e) => Some(e@),
                None => None,
            },
            response: match self.response {
                Some(m) => Some(m.says()),
                None => None,
            },
        }
    }
}

/// A text that counts only if it is not empty.
pub open spec fn unless_empty(text: Seq<char>) -> Option<Seq<char>> {
    if text.len() == 0 {
        None
    } else {
        Some(text)
    }
}

/// A text that counts only if it is not empty.
fn nonempty(text: &str) -> (r: Option<&str>)
    ensures
        r is Some == unless_empty(text@) is Some,
        r matches Some(t) ==> t@ == text@,
{
    if text.is_empty() {
        None
    } else {
        Some(text)
    }
}

/// The query that a client message needs before it can be answered.
pub open spec fn query_of(message: proto::ClientMessage) -> Option<StatementView> {
    match message.msg {
        Some(client_message::Msg::Hello(_)) => Some(plain(SELECT_PENDING_SQL@)),
        Some(client_message::Msg::ClearAll(_)) => Some(plain(SELECT_PENDING_SQL@)),
        Some(client_message::Msg::GetHistory(gh)) => Some(
            history_query(
                gh.limit,
                unless_empty(gh.before_timestamp@),
                unless_empty(gh.app_name@),
            ),
        ),
        Some(client_message::Msg::GetKnownApps(_)) => Some(plain(SELECT_APPS_SQL@)),
        _ => None,
    }
}

/// The query that a client message needs before it can be answered.
pub fn client_query(message: &proto::ClientMessage) -> (r: Option<Statement>)
    ensures
        r is Some == query_of(*message) is Some,
        r matches Some(statement) ==> query_of(*message) == Some(statement@),
{
    match &message.msg {
        Some(client_message::Msg::Hello(_)) => Some(Database::get_pending()),
        Some(client_message::Msg::ClearAll(_)) => Some(Database::get_pending()),
        Some(client_message::Msg::GetHistory(gh)) => Some(
            Database::get_history(
                gh.limit,
                nonempty(gh.before_timestamp.as_str()),
                nonempty(gh.app_name.as_str()),
            ),
        ),
        Some(client_message::Msg::GetKnownApps(_)) => Some(Database::get_known_apps()),
        _ => None,
    }
}

/// Notifications as they are sent.
pub open spec fn sent(list: Seq<NotificationView>) -> Seq<NotificationWire> {
    list.map_values(|n: NotificationView| wire_of(n))
}

/// The number of unread notifications of a list.
pub open spec fn unread(list: Seq<NotificationView>) -> nat
    decreases list.len(),
{
    if list.len() == 0 {
        0
    } else {
        unread(list.drop_last()) + (if list.last().read {
            0nat
        } else {
            1nat
        })
    }
}

/// The statements that dismiss all notifications of a list.
pub open spec fn dismissals(list: Seq<NotificationView>) -> Seq<StatementView> {
    list.map_values(|n: NotificationView| dismissal_of(n.id, CloseReason::Dismissed))
}

/// What is to be done about a client message, given the answer of the database
/// to its query and the DND mode.
pub open spec fn client_outcome(
    message: proto::ClientMessage,
    answer: Answer,
    dnd_mode: DndMode,
) -> ClientOutcomeView {
    let nothing = ClientOutcomeView {
        statements: Seq::empty(),
        mode: None,
        event: None,
        response: None,
    };
    match message.msg {
        None => nothing,
        Some(msg) => match msg {
            client_message::Msg::Hello(_) => ClientOutcomeView {
                response: Some(
                    Some(
                        MsgView::Sync {
                            pending: sent(answer.notifications()),
                            unread_count: unread(answer.notifications()) as u32,
                            dnd_mode: mode_number(dnd_mode),
                        },
                    ),
                ),
                ..nothing
            },
            client_message::Msg::Dismiss(d) => ClientOutcomeView {
                statements: seq![dismissal_of(d.id, CloseReason::Dismissed)],
                event: Some(
                    NotifyEventView::Closed { id: d.id, reason: CloseReason::Dismissed },
                ),
                ..nothing
            },
            client_message::Msg::MarkRead(mr) => ClientOutcomeView {
                statements: seq![
                    (StatementView { sql: MARK_READ_SQL@, args: seq![SqlArg::Int(mr.id as i64)] }),
                ],
                event: Some(NotifyEventView::Read { id: mr.id }),
                ..nothing
            },
            client_message::Msg::ClearAll(_) => ClientOutcomeView {
                statements: dismissals(answer.notifications()),
                event: Some(NotifyEventView::AllCleared),
                ..nothing
            },
            client_message::Msg::SetDnd(sd) => ClientOutcomeView {
                mode: Some(number_mode(sd.mode)),
                event: Some(NotifyEventView::DndChanged { mode: number_mode(sd.mode) }),
                ..nothing
            },
            client_message::Msg::GetHistory(gh) => ClientOutcomeView {
                response: Some(
                    Some(
                        MsgView::History {
                            notifications: sent(answer.notifications()),
                            has_more: answer.notifications().len() == gh.limit,
                        },
                    ),
                ),
                ..nothing
            },
            client_message::Msg::InvokeAction(ia) => ClientOutcomeView {
                event: Some(
                    NotifyEventView::ActionInvoked { id: ia.id, action_key: ia.action_key@ },
                ),
                ..nothing
            },
            client_message::Msg::GetKnownApps(_) => ClientOutcomeView {
                response: Some(Some(MsgView::KnownApps { app_names: answer.app_names() })),
                ..nothing
            },
        },
    }
}

/// Notifications as they are sent.
fn send_list(list: &Vec<Notification>) -> (r: Vec<proto::Notification>)
    ensures
        wires(r@) == sent(contents(list@)),
{
    let mut out: Vec<proto::Notification> = Vec::with_capacity(list.len());
    let mut i: usize = 0;
    while i < list.len()
        invariant
            i <= list@.len(),
            out@.len() == i,
            forall|j: int| 0 <= j < i ==> (#[trigger] out@[j])@ == wire_of(list@[j]@),
        decreases list@.len() - i,
    {
        out.push(proto::Notification::from(&list[i]));
        i += 1;
    }
    assert(wires(out@) =~= sent(contents(list@)));
    out
}

/// The number of unread notifications of a list.
fn count_unread(list: &Vec<Notification>) -> (r: usize)
    ensures
        r == unread(contents(list@)),
{
    let ghost all = contents(list@);
    let mut count: usize = 0;
    let mut i: usize = 0;
    while i < list.len()
        invariant
            i <= list@.len(),
            all == contents(list@),
            count <= i,
            count == unread(all.take(i as int)),
        decreases list@.len() - i,
    {
        proof {
            assert(all.take(i + 1).drop_last() =~= all.take(i as int));
            assert(all.take(i + 1).last() == list@[i as int]@);
        }
        if !list[i].read {
            count += 1;
        }
        i += 1;
    }
    assert(all.take(i as int) =~= all);
    count
}

/// The statements that dismiss all notifications of a list.
fn dismiss_list(list: &Vec<Notification>) -> (r: Vec<Statement>)
    ensures
        statements(r@) == dismissals(contents(list@)),
{
    let mut out: Vec<Statement> = Vec::new();
    let mut i: usize = 0;
    while i < list.len()
        invariant
            i <= list@.len(),
            out@.len() == i,
            forall|j: int|
                0 <= j < i ==> (#[trigger] out@[j])@ == dismissal_of(
                    list@[j].id,
                    CloseReason::Dismissed,
                ),
        decreases list@.len() - i,
    {
        out.push(Database::dismiss(list[i].id, CloseReason::Dismissed));
        i += 1;
    }
    assert(statements(out@) =~= dismissals(contents(list@)));
    out
}

/// Handle a message of a client: what is to be done, given the answer of the
/// database to the query of the message and the current DND mode.
pub fn handle_client(message: &proto::ClientMessage, answer: Answer, dnd_mode: DndMode) -> (r:
    ClientOutcome)
    ensures
        r@ == client_outcome(*message, answer, dnd_mode),
{
    let ghost given = answer;
    let mut list: Vec<Notification> = Vec::new();
    let mut names: Vec<String> = Vec::new();
    match answer {
        Answer::Notifications(l) => {
            list = l;
        },
        Answer::AppNames(n) => {
            names = n;
        },
        Answer::Nothing => {},
    }
    assert(contents(list@) =~= given.notifications());
    assert(texts(names@) =~= given.app_names());
    let mut out: ClientOutcome = ClientOutcome {
        statements: Vec::new(),
        mode: None,
        event: None,
        response: None,
    };
    assert(statements(out.statements@) =~= Seq::empty());
    match &message.msg {
        None => {},
        Some(client_message::Msg::Hello(_)) => {
            let unread_count: u32 = count_unread(&list) as u32;
            let sync: proto::SyncResponse = proto::SyncResponse {
                pending: send_list(&list),
                unread_count,
                dnd_mode: dnd_mode_to_proto(dnd_mode),
            };
            out.response = Some(
                proto::ServerMessage { msg: Some(server_message::Msg::Sync(sync)) },
            );
        },
        Some(client_message::Msg::Dismiss(d)) => {
            out.statements.push(Database::dismiss(d.id, CloseReason::Dismissed));
            out.event = Some(NotifyEvent::Closed { id: d.id, reason: CloseReason::Dismissed });
            assert(statements(out.statements@) =~= seq![
                dismissal_of(d.id, CloseReason::Dismissed),
            ]);
        },
        Some(client_message::Msg::MarkRead(mr)) => {
            out.statements.push(Database::mark_read(mr.id));
            out.event = Some(NotifyEvent::Read { id: mr.id });
            assert(statements(out.statements@) =~= seq![
                (StatementView { sql: MARK_READ_SQL@, args: seq![SqlArg::Int(mr.id as i64)] }),
            ]);
        },
        Some(client_message::Msg::ClearAll(_)) => {
            out.statements = dismiss_list(&list);
            out.event = Some(NotifyEvent::AllCleared);
        },
        Some(client_message::Msg::SetDnd(sd)) => {
            let new_mode: DndMode = proto_to_dnd_mode(sd.mode);
            out.mode = Some(new_mode);
            out.event = Some(NotifyEvent::DndChanged { mode: new_mode });
        },
        Some(client_message::Msg::GetHistory(gh)) => {
            let has_more: bool = list.len() == gh.limit as usize;
            let page: proto::HistoryResponse = proto::HistoryResponse {
                notifications: send_list(&list),
                has_more,
            };
            out.response = Some(
                proto::ServerMessage { msg: Some(server_message::Msg::History(page)) },
            );
        },
        Some(client_message::Msg::InvokeAction(ia)) => {
            out.event = Some(
                NotifyEvent::ActionInvoked { id: ia.id, action_key: ia.action_key.clone() },
            );
        },
        Some(client_message::Msg::GetKnownApps(_)) => {
            let apps: proto::KnownAppsResponse = proto::KnownAppsResponse { app_names: names };
            out.response = Some(
                proto::ServerMessage { msg: Some(server_message::Msg::KnownApps(apps)) },
            );
        },
    }
    out
}

/// A client message is answered with a reply or announced to all clients, never
/// both; only an empty message is neither. A reply always says something.
pub proof fn reply_or_announcement(message: proto::ClientMessage, answer: Answer, dnd_mode: DndMode)
    ensures
        ({
            let outcome = client_outcome(message, answer, dnd_mode);
            &&& !(outcome.response is Some && outcome.event is Some)
            &&& outcome.response matches Some(said) ==> said is Some
            &&& message.msg is Some ==> outcome.response is Some || outcome.event is Some
            &&& message.msg is None ==> outcome.response is None && outcome.event is None
        }),
{
}

/// A client message that gets a reply changes nothing, in the database or in
/// the DND mode.
pub proof fn queries_change_nothing(
    message: proto::ClientMessage,
    answer: Answer,
    dnd_mode: DndMode,
)
    requires
        client_outcome(message, answer, dnd_mode).response is Some,
    ensures
        client_outcome(message, answer, dnd_mode).statements == Seq::<StatementView>::empty(),
        client_outcome(message, answer, dnd_mode).mode is None,
        query_of(message) is Some,
{
}

/// A failed query counts as an empty answer: the client still gets its reply.
pub proof fn failed_query_is_answered(message: proto::ClientMessage, dnd_mode: DndMode)
    requires
        message.msg matches Some(m) && (m is Hello || m is GetHistory || m is GetKnownApps),
    ensures
        client_outcome(message, Answer::Nothing, dnd_mode).response is Some,
{
}

} // verus!
