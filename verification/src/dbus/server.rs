//! Notifications, their priority, and the D-Bus server that receives them.

use crate::clock::{rfc3339_text, LocalTime, Timestamp};
use crate::config::DndMode;
use crate::dbus::hints::{category_hint, category_of, urgency_hint, urgency_of, HintValue};
use crate::dnd::state::mode_at;
use crate::manager::notification::{
    is_reading, IncomingView, ManagerView, NotificationManager, NotifyOutcome,
    OutcomeView,
};
use crate::names::NameMap;
use crate::storage::sqlite::{dismissal_of, Statement};
use crate::text::{str_eq, texts};
use vstd::prelude::*;

verus! {

/// Priority level of a notification.
#[derive(Debug, Clone, Copy, PartialEq, Eq, Structural, PartialOrd, Ord, Hash)]
pub enum Priority {
    /// Background info, no popup. Count only.
    Low,
    /// Standard notification. 4-second toast.
    Normal,
    /// Important. 8-second toast.
    High,
    /// Urgent. Persistent toast until dismissed.
    Critical,
}

impl Priority {
    /// Position in the order from `Low` to `Critical`.
    pub open spec fn rank(self) -> int {
        match self {
            Priority::Low => 0,
            Priority::Normal => 1,
            Priority::High => 2,
            Priority::Critical => 3,
        }
    }
}

/// Reason why a notification was closed.
#[derive(Debug, Clone, Copy, PartialEq, Eq, Structural)]
pub enum CloseReason {
    /// The notification expired (timeout).
    Expired,
    /// The notification was dismissed by the user.
    Dismissed,
    /// The notification was closed by `CloseNotification`.
    Closed,
    /// Undefined/reserved.
    Undefined,
}

impl CloseReason {
    /// The number by which D-Bus clients know the reason.
    pub open spec fn spec_code(self) -> u32 {
        match self {
            CloseReason::Expired => 1,
            CloseReason::Dismissed => 2,
            CloseReason::Closed => 3,
            CloseReason::Undefined => 4,
        }
    }

    /// The number by which D-Bus clients know the reason.
    pub fn code(self) -> (r: u32)
        ensures
            r == self.spec_code(),
    {
        match self {
            CloseReason::Expired => 1,
            CloseReason::Dismissed => 2,
            CloseReason::Closed => 3,
            CloseReason::Undefined => 4,
        }
    }
}

/// A stored notification with all metadata.
#[derive(Debug)]
pub struct Notification {
    /// Unique notification ID.
    pub id: u32,
    /// Sending application name.
    pub app_name: String,
    /// Short summary (title).
    pub summary: String,
    /// Optional body text.
    pub body: String,
    /// Freedesktop icon name or path.
    pub app_icon: String,
    /// Action identifiers and labels: `[(id, label), ...]`.
    pub actions: Vec<(String, String)>,
    /// Computed priority.
    pub priority: Priority,
    /// D-Bus urgency hint value (0 = low, 1 = normal, 2 = critical).
    pub urgency: u8,
    /// Category string from hints (e.g. "im.received", "email.arrived").
    pub category: String,
    /// RFC 3339 timestamp of when the notification was received.
    pub timestamp: String,
    /// Expire timeout asked for by the client (-1 = server decides, 0 = never).
    pub expire_timeout: i32,
    /// Whether this notification has been read.
    pub read: bool,
}

/// The content of a [`Notification`].
pub struct NotificationView {
    pub id: u32,
    pub app_name: Seq<char>,
    pub summary: Seq<char>,
    pub body: Seq<char>,
    pub app_icon: Seq<char>,
    pub actions: Seq<(Seq<char>, Seq<char>)>,
    pub priority: Priority,
    pub urgency: u8,
    pub category: Seq<char>,
    pub timestamp: Seq<char>,
    pub expire_timeout: i32,
    pub read: bool,
}

/// The texts of a list of key/label pairs.
pub open spec fn pair_texts(pairs: Seq<(String, String)>) -> Seq<(Seq<char>, Seq<char>)> {
    pairs.map_values(|p: (String, String)| (p.0@, p.1@))
}

impl View for Notification {
    type V = NotificationView;

    open spec fn view(&self) -> NotificationView {
        NotificationView {
            id: self.id,
            app_name: self.app_name@,
            summary: self.summary@,
            body: self.body@,
            app_icon: self.app_icon@,
            actions: pair_texts(self.actions@),
            priority: self.priority,
            urgency: self.urgency,
            category: self.category@,
            timestamp: self.timestamp@,
            expire_timeout: self.expire_timeout,
            read: self.read,
        }
    }
}

/// Copies a list of key/label pairs.
pub fn clone_pairs(pairs: &Vec<(String, String)>) -> (r: Vec<(String, String)>)
    ensures
        r@ == pairs@,
{
    let mut out: Vec<(String, String)> = Vec::with_capacity(pairs.len());
    let mut i: usize = 0;
    while i < pairs.len()
        invariant
            i <= pairs@.len(),
            out@ == pairs@.take(i as int),
        decreases pairs@.len() - i,
    {
        let key: String = pairs[i].0.clone();
        let label: String = pairs[i].1.clone();
        out.push((key, label));
        assert(out@ =~= pairs@.take(i + 1));
        i += 1;
    }
    assert(pairs@.take(i as int) =~= pairs@);
    out
}

impl Clone for Notification {
    fn clone(&self) -> (r: Self)
        ensures
            r@ == self@,
            r.id == self.id,
            r.app_name@ == self.app_name@,
            r.summary@ == self.summary@,
            r.body@ == self.body@,
            r.app_icon@ == self.app_icon@,
            r.actions@ == self.actions@,
            r.priority == self.priority,
            r.urgency == self.urgency,
            r.category@ == self.category@,
            r.timestamp@ == self.timestamp@,
            r.expire_timeout == self.expire_timeout,
            r.read == self.read,
    {
        Notification {
            id: self.id,
            app_name: self.app_name.clone(),
            summary: self.summary.clone(),
            body: self.body.clone(),
            app_icon: self.app_icon.clone(),
            actions: clone_pairs(&self.actions),
            priority: self.priority,
            urgency: self.urgency,
            category: self.category.clone(),
            timestamp: self.timestamp.clone(),
            expire_timeout: self.expire_timeout,
            read: self.read,
        }
    }
}

/// Event emitted when the notification list changes.
#[derive(Debug)]
pub enum NotifyEvent {
    /// A new notification was added.
    Added(Notification),
    /// A notification was closed.
    Closed { id: u32, reason: CloseReason },
    /// An action was invoked on a notification.
    ActionInvoked { id: u32, action_key: String },
    /// A notification was marked as read.
    Read { id: u32 },
    /// All notifications were cleared.
    AllCleared,
    /// DND mode changed.
    DndChanged { mode: DndMode },
}

/// The content of a [`NotifyEvent`].
pub enum NotifyEventView {
    Added(NotificationView),
    Closed { id: u32, reason: CloseReason },
    ActionInvoked { id: u32, action_key: Seq<char> },
    Read { id: u32 },
    AllCleared,
    DndChanged { mode: DndMode },
}

impl View for NotifyEvent {
    type V = NotifyEventView;

    open spec fn view(&self) -> NotifyEventView {
        match *self {
            NotifyEvent::Added(n) => NotifyEventView::Added(n@),
            NotifyEvent::Closed { id, reason } => NotifyEventView::Closed { id, reason },
            NotifyEvent::ActionInvoked { id, action_key } => NotifyEventView::ActionInvoked {
                id,
                action_key: action_key@,
            },
            NotifyEvent::Read { id } => NotifyEventView::Read { id },
            NotifyEvent::AllCleared => NotifyEventView::AllCleared,
            NotifyEvent::DndChanged { mode } => NotifyEventView::DndChanged { mode },
        }
    }
}

impl Clone for NotifyEvent {
    fn clone(&self) -> (r: Self)
        ensures
            r@ == self@,
    {
        match self {
            NotifyEvent::Added(n) => NotifyEvent::Added(n.clone()),
            NotifyEvent::Closed { id, reason } => NotifyEvent::Closed { id: *id, reason: *reason },
            NotifyEvent::ActionInvoked { id, action_key } => NotifyEvent::ActionInvoked {
                id: *id,
                action_key: action_key.clone(),
            },
            NotifyEvent::Read { id } => NotifyEvent::Read { id: *id },
            NotifyEvent::AllCleared => NotifyEvent::AllCleared,
            NotifyEvent::DndChanged { mode } => NotifyEvent::DndChanged { mode: *mode },
        }
    }
}

/// Categories that lift a notification of normal urgency to high priority:
/// messages, mail, presence, and device or network errors.
pub open spec fn is_high_category(category: Seq<char>) -> bool {
    ||| category == "im.received"@
    ||| category == "im"@
    ||| category == "email.arrived"@
    ||| category == "email"@
    ||| category == "presence.online"@
    ||| category == "device.error"@
    ||| category == "network.error"@
}

/// The priority of a notification: critical where the urgency is critical or
/// the timeout says never; else low where the urgency is low; else high in a
/// high category; else normal.
pub open spec fn priority_of(urgency: u8, expire_timeout: i32, category: Seq<char>) -> Priority {
    if urgency >= 2 || expire_timeout == 0 {
        Priority::Critical
    } else if urgency == 0 {
        Priority::Low
    } else if is_high_category(category) {
        Priority::High
    } else {
        Priority::Normal
    }
}

/// Determine the priority of a notification from its D-Bus hints.
pub fn determine_priority(urgency: u8, expire_timeout: i32, category: &str) -> (r: Priority)
    ensures
        r == priority_of(urgency, expire_timeout, category@),
{
    if urgency >= 2 {
        return Priority::Critical;
    }
    if expire_timeout == 0 {
        return Priority::Critical;
    }
    if urgency == 0 {
        return Priority::Low;
    }
    // Messages, mail and presence.
    if str_eq(category, "im.received") || str_eq(category, "im") || str_eq(category, "email")
        || str_eq(category, "email.arrived") || str_eq(category, "presence.online") {
        return Priority::High;
    }
    if str_eq(category, "device.error") || str_eq(category, "network.error") {
        return Priority::High;
    }
    Priority::Normal
}

/// A flat list of alternating keys and labels, taken as pairs. A key without a
/// label at the end is left out.
pub open spec fn paired(flat: Seq<Seq<char>>) -> Seq<(Seq<char>, Seq<char>)> {
    Seq::new(flat.len() / 2, |i: int| (flat[2 * i], flat[2 * i + 1]))
}

/// Parse the actions array of a `Notify` call (alternating keys and labels).
pub fn parse_actions(raw: &[String]) -> (r: Vec<(String, String)>)
    ensures
        pair_texts(r@) == paired(texts(raw@)),
        r@.len() == raw@.len() / 2,
        forall|i: int| 0 <= i < r@.len() ==> (#[trigger] r@[i]).0@ == raw@[2 * i]@,
        forall|i: int| 0 <= i < r@.len() ==> (#[trigger] r@[i]).1@ == raw@[2 * i + 1]@,
{
    let mut out: Vec<(String, String)> = Vec::new();
    let len: usize = raw.len();
    let mut i: usize = 0;
    while i < len / 2
        invariant
            len == raw@.len(),
            i <= len / 2,
            out@.len() == i,
            forall|j: int| 0 <= j < i ==> (#[trigger] out@[j]).0@ == raw@[2 * j]@,
            forall|j: int| 0 <= j < i ==> (#[trigger] out@[j]).1@ == raw@[2 * j + 1]@,
        decreases len / 2 - i,
    {
        let key: String = raw[2 * i].clone();
        let label: String = raw[2 * i + 1].clone();
        out.push((key, label));
        i += 1;
    }
    assert(pair_texts(out@) =~= paired(texts(raw@)));
    out
}

/// The version that the server reports.
pub const SERVER_VERSION: &'static str = "0.1.0";

/// The content of a [`NotificationServer`].
pub struct ServerView {
    /// The ID that the next new notification gets.
    pub next_id: u32,
    /// The manager, once it is set.
    pub manager: Option<ManagerView>,
}

impl ServerView {
    /// The ID of an incoming notification: the one it replaces, or a fresh one
    /// where it replaces none.
    pub open spec fn assigned(self, replaces_id: u32) -> u32 {
        if replaces_id > 0 {
            replaces_id
        } else {
            self.next_id
        }
    }

    /// The next fresh ID after an assignment. Fresh IDs count up and start over
    /// at 0 after `u32::MAX`.
    pub open spec fn following(self, replaces_id: u32) -> u32 {
        if replaces_id > 0 {
            self.next_id
        } else if self.next_id == u32::MAX {
            0
        } else {
            (self.next_id + 1) as u32
        }
    }
}

/// The D-Bus notification server.
///
/// The D-Bus interface is intentionally thin: it hands out IDs, extracts the
/// urgency and category hints, and then delegates the full pipeline to the
/// [`NotificationManager`].
#[derive(Debug)]
pub struct NotificationServer {
    next_id: u32,
    /// The manager that does the work, once it is wired up.
    pub manager: Option<NotificationManager>,
}

impl View for NotificationServer {
    type V = ServerView;

    closed spec fn view(&self) -> ServerView {
        ServerView {
            next_id: self.next_id,
            manager: match self.manager {
                Some(m) => Some(m@),
                None => None,
            },
        }
    }
}

/// The input that a `Notify` call hands to the manager.
pub open spec fn notify_input(
    id: u32,
    app_name: Seq<char>,
    app_icon: Seq<char>,
    summary: Seq<char>,
    body: Seq<char>,
    actions: Seq<Seq<char>>,
    hints: Map<Seq<char>, HintValue>,
    expire_timeout: i32,
) -> IncomingView {
    IncomingView {
        id,
        app_name,
        app_icon,
        summary,
        body,
        actions,
        urgency: urgency_of(hints),
        category: category_of(hints),
        expire_timeout,
    }
}

impl NotificationServer {
    /// A server that has handed out no ID yet and has no manager. The first ID
    /// is 1.
    pub fn new() -> (r: Self)
        ensures
            r@ == (ServerView { next_id: 1, manager: None }),
    {
        NotificationServer { next_id: 1, manager: None }
    }

    /// Wire up the manager. Only the first one counts.
    pub fn set_manager(&mut self, manager: NotificationManager)
        ensures
            final(self)@ == (ServerView {
                manager: if old(self)@.manager is Some {
                    old(self)@.manager
                } else {
                    Some(manager@)
                },
                ..old(self)@
            }),
    {
        if self.manager.is_none() {
            self.manager = Some(manager);
        }
    }

    /// The ID of an incoming notification.
    pub fn assign_id(&mut self, replaces_id: u32) -> (r: u32)
        ensures
            r == old(self)@.assigned(replaces_id),
            final(self)@ == (ServerView {
                next_id: old(self)@.following(replaces_id),
                ..old(self)@
            }),
    {
        if replaces_id > 0 {
            replaces_id
        } else {
            let id: u32 = self.next_id;
            self.next_id = id.wrapping_add(1);
            id
        }
    }

    /// Handle a `Notify` call: assign the ID, read the urgency and category
    /// hints, and hand the notification to the manager. Without a manager the
    /// notification is lost and the ID in the outcome is 0.
    pub fn notify(
        &mut self,
        app_name: &str,
        replaces_id: u32,
        app_icon: &str,
        summary: &str,
        body: &str,
        actions: &[String],
        hints: &NameMap<HintValue>,
        expire_timeout: i32,
    ) -> (r: NotifyOutcome)
        ensures
            final(self)@.next_id == old(self)@.following(replaces_id),
            old(self)@.manager is None ==> final(self)@.manager is None && r@ == (OutcomeView {
                id: 0,
                store: None,
                event: None,
            }),
            old(self)@.manager matches Some(m) ==> exists|
                tick: u64,
                now: Timestamp,
                local: LocalTime,
            |
                #[trigger] is_reading(m.limiter.clock, tick, now, local) && ({
                    let input = notify_input(
                        old(self)@.assigned(replaces_id),
                        app_name@,
                        app_icon@,
                        summary@,
                        body@,
                        texts(actions@),
                        hints@,
                        expire_timeout,
                    );
                    let timestamp = rfc3339_text(now.secs, now.nanos)->0;
                    let mode = mode_at(m.config.dnd, now, local);
                    &&& final(self)@.manager == Some(m.after_notify(input, tick, timestamp, mode))
                    &&& r@ == m.outcome(input, tick, timestamp, mode)
                }),
    {
        let id: u32 = self.assign_id(replaces_id);
        let urgency: u8 = urgency_hint(hints);
        let category: String = category_hint(hints);
        match &mut self.manager {
            Some(manager) => manager.handle_notify(
                id,
                app_name,
                app_icon,
                summary,
                body,
                actions,
                urgency,
                category.as_str(),
                expire_timeout,
            ),
            None => NotifyOutcome { id: 0, store: None, event: None },
        }
    }

    /// Handle a `CloseNotification` call: the statement to run and the event to
    /// broadcast, where there is a manager, and the reason code of the
    /// `NotificationClosed` signal.
    pub fn close_notification(&self, id: u32) -> (r: (Option<(Statement, NotifyEvent)>, u32))
        ensures
            r.1 == CloseReason::Closed.spec_code(),
            r.1 == 3,
            r.0 is Some == self@.manager is Some,
            r.0 matches Some(p) ==> p.0@ == dismissal_of(id, CloseReason::Closed) && p.1@ == (
            NotifyEventView::Closed { id, reason: CloseReason::Closed }),
    {
        let work: Option<(Statement, NotifyEvent)> = match &self.manager {
            Some(manager) => Some(manager.handle_close(id, CloseReason::Closed)),
            None => None,
        };
        (work, CloseReason::Closed.code())
    }

    /// Supported capabilities. Markup is stripped from every text, so it is
    /// not among them.
    pub fn get_capabilities(&self) -> (r: Vec<String>)
        ensures
            texts(r@) == seq!["body"@, "actions"@, "icon-static"@, "persistence"@],
    {
        let mut out: Vec<String> = Vec::new();
        out.push("body".to_string());
        out.push("actions".to_string());
        out.push("icon-static".to_string());
        out.push("persistence".to_string());
        assert(texts(out@) =~= seq!["body"@, "actions"@, "icon-static"@, "persistence"@]);
        out
    }

    /// Server identification: name, vendor, version, and the version of the
    /// notification protocol.
    pub fn get_server_information(&self) -> (r: (String, String, String, String))
        ensures
            r.0@ == "Lunaris"@,
            r.1@ == "Lunaris OS"@,
            r.2@ == SERVER_VERSION@,
            r.3@ == "1.2"@,
    {
        (
            "Lunaris".to_string(),
            "Lunaris OS".to_string(),
            SERVER_VERSION.to_string(),
            "1.2".to_string(),
        )
    }
}

/// IDs of new notifications count up: two new notifications in a row get
/// consecutive IDs, short of the largest.
pub proof fn fresh_ids_count_up(server: ServerView)
    requires
        server.next_id < u32::MAX,
    ensures
        server.assigned(0) == server.next_id,
        (ServerView { next_id: server.following(0), ..server }).assigned(0) == server.assigned(0)
            + 1,
{
}

/// A server after a series of assignments.
pub open spec fn after_assignments(server: ServerView, replaced: Seq<u32>) -> ServerView
    decreases replaced.len(),
{
    if replaced.len() == 0 {
        server
    } else {
        let before = after_assignments(server, replaced.drop_last());
        ServerView { next_id: before.following(replaced.last()), ..before }
    }
}

/// Of a new server, the next fresh ID exceeds the one of any earlier point, as
/// long as not all IDs have been used.
proof fn lemma_next_id_grows(replaced: Seq<u32>, i: int)
    requires
        0 <= i <= replaced.len() < u32::MAX,
    ensures
        ({
            let start = ServerView { next_id: 1, manager: None };
            let early = after_assignments(start, replaced.take(i)).next_id;
            let late = after_assignments(start, replaced).next_id;
            &&& early <= late <= replaced.len() + 1
            &&& i < replaced.len() && replaced[i] == 0 ==> early < late
        }),
    decreases replaced.len(),
{
    if i == replaced.len() {
        assert(replaced.take(i) =~= replaced);
        if i > 0 {
            lemma_next_id_grows(replaced.drop_last(), i - 1);
            assert(replaced.drop_last().take(i - 1) =~= replaced.drop_last());
        }
    } else {
        let shorter = replaced.drop_last();
        lemma_next_id_grows(shorter, i);
        assert(shorter.take(i) =~= replaced.take(i));
        if i == shorter.len() {
            assert(shorter.take(i) =~= shorter);
        }
    }
}

/// IDs of new notifications are unique and increase, over any series of calls
/// on a new server, new notifications and replacements mixed, as long as not
/// all IDs have been used.
pub proof fn fresh_ids_increase(replaced: Seq<u32>, i: int, j: int)
    requires
        0 <= i < j < replaced.len() < u32::MAX,
        replaced[i] == 0,
        replaced[j] == 0,
    ensures
        ({
            let start = ServerView { next_id: 1, manager: None };
            let earlier = after_assignments(start, replaced.take(i)).assigned(replaced[i]);
            let later = after_assignments(start, replaced.take(j)).assigned(replaced[j]);
            0 < earlier < later
        }),
{
    let until_j = replaced.take(j);
    lemma_next_id_grows(until_j, i);
    assert(until_j.take(i) =~= replaced.take(i));
    assert(until_j[i] == replaced[i]);
    let until_i = replaced.take(i);
    lemma_next_id_grows(until_i, 0);
    assert(until_i.take(0) =~= Seq::<u32>::empty());
}

/// A notification that replaces another gets its ID and uses up no fresh one.
pub proof fn replacing_keeps_the_id(server: ServerView, replaces_id: u32)
    requires
        replaces_id > 0,
    ensures
        server.assigned(replaces_id) == replaces_id,
        server.following(replaces_id) == server.next_id,
{
}

/// A higher urgency never lowers the priority.
pub proof fn priority_grows_with_urgency(
    low: u8,
    high: u8,
    expire_timeout: i32,
    category: Seq<char>,
)
    requires
        low <= high,
    ensures
        priority_of(low, expire_timeout, category).rank() <= priority_of(
            high,
            expire_timeout,
            category,
        ).rank(),
{
}

/// A notification that never expires is critical, whatever its urgency and
/// category.
pub proof fn persistent_is_critical(urgency: u8, category: Seq<char>)
    ensures
        priority_of(urgency, 0, category) == Priority::Critical,
{
}

/// The category decides only between normal and high, and only for a
/// notification of normal urgency that expires.
pub proof fn category_lifts_normal_urgency_only(
    urgency: u8,
    expire_timeout: i32,
    category: Seq<char>,
    other: Seq<char>,
)
    requires
        priority_of(urgency, expire_timeout, category) != priority_of(
            urgency,
            expire_timeout,
            other,
        ),
    ensures
        urgency == 1,
        expire_timeout != 0,
        priority_of(urgency, expire_timeout, category).rank() + priority_of(
            urgency,
            expire_timeout,
            other,
        ).rank() == Priority::Normal.rank() + Priority::High.rank(),
{
}

/// A key and the label behind it make a pair, in order; a key without a label
/// at the end makes none.
pub proof fn actions_alternate(flat: Seq<Seq<char>>)
    ensures
        paired(flat).len() == flat.len() / 2,
        forall|i: int| 0 <= i < paired(flat).len() ==> (#[trigger] paired(flat)[i]).0 == flat[2 * i],
        forall|i: int|
            0 <= i < paired(flat).len() ==> (#[trigger] paired(flat)[i]).1 == flat[2 * i + 1],
{
}

/// Two more texts at the end make one more pair.
pub proof fn one_more_action_is_one_more_pair(
    flat: Seq<Seq<char>>,
    key: Seq<char>,
    label: Seq<char>,
)
    requires
        flat.len() % 2 == 0,
    ensures
        paired(flat.push(key).push(label)) == paired(flat).push((key, label)),
        paired(flat.push(key)) == paired(flat),
{
    assert(paired(flat.push(key).push(label)) =~= paired(flat).push((key, label)));
    assert(paired(flat.push(key)) =~= paired(flat));
}

/// A notification is critical exactly if its urgency is above normal or it
/// never expires.
pub proof fn critical_is_urgent_or_persistent(
    urgency: u8,
    expire_timeout: i32,
    category: Seq<char>,
)
    ensures
        priority_of(urgency, expire_timeout, category) == Priority::Critical <==> urgency > 1
            || expire_timeout == 0,
{
}

/// A notification that expires is low exactly if its urgency is low.
pub proof fn low_is_low_urgency(urgency: u8, expire_timeout: i32, category: Seq<char>)
    requires
        expire_timeout != 0,
    ensures
        priority_of(urgency, expire_timeout, category) == Priority::Low <==> urgency == 0,
{
}

/// A notification of normal urgency that expires is high exactly if it is about
/// a message, mail, presence, or an error of a device or the network.
pub proof fn high_is_by_category(expire_timeout: i32, category: Seq<char>)
    requires
        expire_timeout != 0,
    ensures
        priority_of(1, expire_timeout, category) == Priority::High <==> seq![
            "im"@,
            "im.received"@,
            "email"@,
            "email.arrived"@,
            "presence.online"@,
            "device.error"@,
            "network.error"@,
        ].contains(category),
        priority_of(1, expire_timeout, category) == Priority::High || priority_of(
            1,
            expire_timeout,
            category,
        ) == Priority::Normal,
{
    let list = seq![
        "im"@,
        "im.received"@,
        "email"@,
        "email.arrived"@,
        "presence.online"@,
        "device.error"@,
        "network.error"@,
    ];
    if is_high_category(category) {
        assert(list[0] == "im"@ && list[1] == "im.received"@ && list[2] == "email"@);
        assert(list[3] == "email.arrived"@ && list[4] == "presence.online"@);
        assert(list[5] == "device.error"@ && list[6] == "network.error"@);
    }
}

/// The timeout counts only as never or not.
pub proof fn timeout_counts_as_never_or_not(urgency: u8, a: i32, b: i32, category: Seq<char>)
    requires
        (a == 0) == (b == 0),
    ensures
        priority_of(urgency, a, category) == priority_of(urgency, b, category),
{
}

/// Reasons are numbered as D-Bus clients know them.
pub proof fn reasons_are_numbered()
    ensures
        CloseReason::Expired.spec_code() == 1,
        CloseReason::Dismissed.spec_code() == 2,
        CloseReason::Closed.spec_code() == 3,
        CloseReason::Undefined.spec_code() == 4,
{
}

/// After the largest ID the fresh IDs start over.
pub proof fn fresh_ids_start_over(server: ServerView)
    requires
        server.next_id == u32::MAX,
    ensures
        server.assigned(0) == u32::MAX,
        server.following(0) == 0,
{
}

/// What a call hands to the manager is what it was called with; the urgency and
/// the category are those of the hints.
pub proof fn call_is_handed_on(
    id: u32,
    app_name: Seq<char>,
    app_icon: Seq<char>,
    summary: Seq<char>,
    body: Seq<char>,
    actions: Seq<Seq<char>>,
    hints: Map<Seq<char>, HintValue>,
    expire_timeout: i32,
)
    ensures
        ({
            let input = notify_input(
                id,
                app_name,
                app_icon,
                summary,
                body,
                actions,
                hints,
                expire_timeout,
            );
            &&& input.id == id
            &&& input.app_name == app_name
            &&& input.app_icon == app_icon
            &&& input.summary == summary
            &&& input.body == body
            &&& input.actions == actions
            &&& input.urgency == urgency_of(hints)
            &&& input.category == category_of(hints)
            &&& input.expire_timeout == expire_timeout
        }),
{
}

/// The content of a notification has every field under the same name, and its
/// actions as pairs in order.
pub proof fn content_has_every_field(n: Notification)
    ensures
        n@.id == n.id,
        n@.app_name == n.app_name@,
        n@.summary == n.summary@,
        n@.body == n.body@,
        n@.app_icon == n.app_icon@,
        n@.actions.len() == n.actions@.len(),
        forall|i: int|
            0 <= i < n.actions@.len() ==> (#[trigger] n@.actions[i]).0 == n.actions@[i].0@,
        forall|i: int|
            0 <= i < n.actions@.len() ==> (#[trigger] n@.actions[i]).1 == n.actions@[i].1@,
        n@.priority == n.priority,
        n@.urgency == n.urgency,
        n@.category == n.category@,
        n@.timestamp == n.timestamp@,
        n@.expire_timeout == n.expire_timeout,
        n@.read == n.read,
{
}

} // verus!
