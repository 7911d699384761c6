//! Database row model for notifications.

use crate::dbus::server::{pair_texts, Notification, NotificationView, Priority};
use crate::text::str_eq;
use vstd::prelude::*;

verus! {

/// The JSON text that `serde_json` writes for a list of key/label pairs.
pub uninterp spec fn actions_json(actions: Seq<(Seq<char>, Seq<char>)>) -> Seq<char>;

/// The list of key/label pairs that `serde_json` reads from a JSON text;
/// nothing if it rejects the text.
pub uninterp spec fn json_actions(json: Seq<char>) -> Option<Seq<(Seq<char>, Seq<char>)>>;

/// `serde_json::to_string` on a list of pairs of strings. It succeeds, since
/// lists, pairs and strings are always serializable. The text is a function of
/// the list, named [`actions_json`], and `serde_json::from_str` reads the same
/// list back from it.
#[verifier::external_body]
fn actions_to_json(actions: &Vec<(String, String)>) -> (r: Option<String>)
    ensures
        r is Some,
        r->0@ == actions_json(pair_texts(actions@)),
        json_actions(r->0@) == Some(pair_texts(actions@)),
{
    serde_json::to_string(actions).ok()
}

/// `serde_json::from_str` to a list of pairs of strings: the list, or nothing
/// if the text is not JSON of that shape. The result is a function of the
/// text, named [`json_actions`].
#[verifier::external_body]
pub(crate) fn actions_from_json(json: &str) -> (r: Option<Vec<(String, String)>>)
    ensures
        r is Some == json_actions(json@) is Some,
        r matches Some(actions) ==> json_actions(json@) == Some(pair_texts(actions@)),
{
    serde_json::from_str(json).ok()
}

/// SQLite row representation of a notification.
#[derive(Debug)]
pub struct NotificationRow {
    pub id: i64,
    pub app_name: String,
    pub summary: String,
    pub body: String,
    pub app_icon: String,
    /// JSON-encoded actions: `[["key","label"], ...]`
    pub actions_json: String,
    /// "low", "normal", "high", "critical"
    pub priority: String,
    pub urgency: i64,
    pub category: String,
    /// RFC 3339 timestamp.
    pub timestamp: String,
    pub expire_timeout: i64,
    pub read: bool,
    /// Whether the notification has been dismissed.
    pub dismissed: bool,
    /// Close reason if dismissed (1-4), or NULL.
    pub close_reason: Option<i64>,
}

/// The content of a [`NotificationRow`].
pub struct RowView {
    pub id: i64,
    pub app_name: Seq<char>,
    pub summary: Seq<char>,
    pub body: Seq<char>,
    pub app_icon: Seq<char>,
    pub actions_json: Seq<char>,
    pub priority: Seq<char>,
    pub urgency: i64,
    pub category: Seq<char>,
    pub timestamp: Seq<char>,
    pub expire_timeout: i64,
    pub read: bool,
    pub dismissed: bool,
    pub close_reason: Option<i64>,
}

impl View for NotificationRow {
    type V = RowView;

    open spec fn view(&self) -> RowView {
        RowView {
            id: self.id,
            app_name: self.app_name@,
            summary: self.summary@,
            body: self.body@,
            app_icon: self.app_icon@,
            actions_json: self.actions_json@,
            priority: self.priority@,
            urgency: self.urgency,
            category: self.category@,
            timestamp: self.timestamp@,
            expire_timeout: self.expire_timeout,
            read: self.read,
            dismissed: self.dismissed,
            close_reason: self.close_reason,
        }
    }
}

/// The text stored for a priority.
pub open spec fn priority_text(p: Priority) -> Seq<char> {
    match p {
        Priority::Low => "low"@,
        Priority::Normal => "normal"@,
        Priority::High => "high"@,
        Priority::Critical => "critical"@,
    }
}

/// The priority that a stored text stands for. Any other text is normal.
pub open spec fn text_priority(text: Seq<char>) -> Priority {
    if text == "low"@ {
        Priority::Low
    } else if text == "high"@ {
        Priority::High
    } else if text == "critical"@ {
        Priority::Critical
    } else {
        Priority::Normal
    }
}

/// The actions that a stored JSON text stands for; none if it is not valid.
pub open spec fn stored_actions(json: Seq<char>) -> Seq<(Seq<char>, Seq<char>)> {
    match json_actions(json) {
        Some(actions) => actions,
        None => Seq::empty(),
    }
}

/// The row of a notification that has just arrived.
pub open spec fn row_of(n: NotificationView) -> RowView {
    RowView {
        id: n.id as i64,
        app_name: n.app_name,
        summary: n.summary,
        body: n.body,
        app_icon: n.app_icon,
        actions_json: actions_json(n.actions),
        priority: priority_text(n.priority),
        urgency: n.urgency as i64,
        category: n.category,
        timestamp: n.timestamp,
        expire_timeout: n.expire_timeout as i64,
        read: n.read,
        dismissed: false,
        close_reason: None,
    }
}

/// The notification of a row.
pub open spec fn notification_of(row: RowView) -> NotificationView {
    NotificationView {
        id: row.id as u32,
        app_name: row.app_name,
        summary: row.summary,
        body: row.body,
        app_icon: row.app_icon,
        actions: stored_actions(row.actions_json),
        priority: text_priority(row.priority),
        urgency: row.urgency as u8,
        category: row.category,
        timestamp: row.timestamp,
        expire_timeout: row.expire_timeout as i32,
        read: row.read,
    }
}

/// The text stored for a priority.
pub fn priority_to_str(p: Priority) -> (r: String)
    ensures
        r@ == priority_text(p),
{
    match p {
        Priority::Low => "low".to_string(),
        Priority::Normal => "normal".to_string(),
        Priority::High => "high".to_string(),
        Priority::Critical => "critical".to_string(),
    }
}

/// The priority that a stored text stands for.
pub fn priority_from_str(s: &str) -> (r: Priority)
    ensures
        r == text_priority(s@),
{
    if str_eq(s, "low") {
        Priority::Low
    } else if str_eq(s, "high") {
        Priority::High
    } else if str_eq(s, "critical") {
        Priority::Critical
    } else {
        Priority::Normal
    }
}

/// The actions read from a stored text; none if it could not be read.
pub fn actions_or_none(actions: Option<Vec<(String, String)>>) -> (r: Vec<(String, String)>)
    ensures
        actions matches Some(list) ==> r == list,
        actions is None ==> r@.len() == 0,
{
    match actions {
        Some(list) => list,
        None => Vec::new(),
    }
}

/// The actions that a stored JSON text stands for.
pub(crate) fn read_actions(json: &str) -> (r: Vec<(String, String)>)
    ensures
        pair_texts(r@) == stored_actions(json@),
{
    let r: Vec<(String, String)> = actions_or_none(actions_from_json(json));
    assert(json_actions(json@) is None ==> pair_texts(r@) =~= Seq::empty());
    r
}

impl NotificationRow {
    /// Convert from a D-Bus `Notification` to a database row. The row gives the
    /// notification back.
    pub fn from_notification(n: &Notification) -> (r: Self)
        ensures
            r@ == row_of(n@),
            notification_of(r@) == n@,
            r.id == n.id,
            r.app_name@ == n.app_name@,
            r.summary@ == n.summary@,
            r.body@ == n.body@,
            r.app_icon@ == n.app_icon@,
            r.actions_json@ == actions_json(pair_texts(n.actions@)),
            r.priority@ == priority_text(n.priority),
            r.urgency == n.urgency,
            r.category@ == n.category@,
            r.timestamp@ == n.timestamp@,
            r.expire_timeout == n.expire_timeout,
            r.read == n.read,
            !r.dismissed,
            r.close_reason is None,
    {
        let actions_json: String = match actions_to_json(&n.actions) {
            Some(json) => json,
            None => "[]".to_string(),
        };
        let r = NotificationRow {
            id: n.id as i64,
            app_name: n.app_name.clone(),
            summary: n.summary.clone(),
            body: n.body.clone(),
            app_icon: n.app_icon.clone(),
            actions_json,
            priority: priority_to_str(n.priority),
            urgency: n.urgency as i64,
            category: n.category.clone(),
            timestamp: n.timestamp.clone(),
            expire_timeout: n.expire_timeout as i64,
            read: n.read,
            dismissed: false,
            close_reason: None,
        };
        proof {
            stored_priority_reads_back(n.priority);
        }
        r
    }

    /// Convert from a database row back to a `Notification`.
    pub fn to_notification(&self) -> (r: Notification)
        ensures
            r@ == notification_of(self@),
            r.id == self.id as u32,
            r.app_name@ == self.app_name@,
            r.summary@ == self.summary@,
            r.body@ == self.body@,
            r.app_icon@ == self.app_icon@,
            pair_texts(r.actions@) == stored_actions(self.actions_json@),
            r.priority == text_priority(self.priority@),
            r.urgency == self.urgency as u8,
            r.category@ == self.category@,
            r.timestamp@ == self.timestamp@,
            r.expire_timeout == self.expire_timeout as i32,
            r.read == self.read,
    {
        Notification {
            id: self.id as u32,
            app_name: self.app_name.clone(),
            summary: self.summary.clone(),
            body: self.body.clone(),
            app_icon: self.app_icon.clone(),
            actions: read_actions(self.actions_json.as_str()),
            priority: priority_from_str(self.priority.as_str()),
            urgency: self.urgency as u8,
            category: self.category.clone(),
            timestamp: self.timestamp.clone(),
            expire_timeout: self.expire_timeout as i32,
            read: self.read,
        }
    }
}

/// A stored priority reads back as itself.
pub proof fn stored_priority_reads_back(p: Priority)
    ensures
        text_priority(priority_text(p)) == p,
{
    reveal_strlit("low");
    reveal_strlit("normal");
    reveal_strlit("high");
    reveal_strlit("critical");
    assert("high"@[0] != "low"@[0]);
    assert("critical"@[0] != "low"@[0] && "critical"@[0] != "high"@[0]);
    assert("normal"@[0] != "low"@[0] && "normal"@[0] != "high"@[0] && "normal"@[0]
        != "critical"@[0]);
}

} // verus!
