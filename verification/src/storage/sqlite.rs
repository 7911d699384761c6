//! The statements that the daemon runs on its SQLite database, and what it
//! reads from the results.

use crate::calls::outcome_of;
use crate::clock::{
    days_before, in_range, print_rfc3339, rfc3339_text, subtract_days, Timestamp,
};
use crate::dbus::server::{pair_texts, CloseReason, Notification, NotificationView};
use crate::storage::models::{
    actions_json, notification_of, priority_from_str, priority_text, read_actions, row_of,
    stored_actions, text_priority, NotificationRow,
};
use crate::text::{join, optional_text};
use vstd::prelude::*;

verus! {

/// Version of the schema, kept in the database.
pub const SCHEMA_VERSION: i64 = 1;

/// Creates the table that holds the version of the schema.
pub const CREATE_VERSION_SQL: &'static str =
    "CREATE TABLE IF NOT EXISTS schema_version (version INTEGER NOT NULL)";

/// Reads the version of the schema.
pub const SELECT_VERSION_SQL: &'static str = "SELECT version FROM schema_version LIMIT 1";

/// Records the version of the schema.
pub const INSERT_VERSION_SQL: &'static str = "INSERT INTO schema_version (version) VALUES (?)";

/// Creates the table of notifications.
pub const CREATE_NOTIFICATIONS_SQL: &'static str =
    "CREATE TABLE IF NOT EXISTS notifications (id INTEGER PRIMARY KEY, app_name TEXT NOT NULL \
     DEFAULT '', summary TEXT NOT NULL DEFAULT '', body TEXT NOT NULL DEFAULT '', app_icon \
     TEXT NOT NULL DEFAULT '', actions TEXT NOT NULL DEFAULT '[]', priority TEXT NOT NULL \
     DEFAULT 'normal', urgency INTEGER NOT NULL DEFAULT 1, category TEXT NOT NULL DEFAULT '', \
     timestamp TEXT NOT NULL, expire_timeout INTEGER NOT NULL DEFAULT -1, read INTEGER NOT \
     NULL DEFAULT 0, dismissed INTEGER NOT NULL DEFAULT 0, close_reason INTEGER)";

/// Creates the index for reading by time.
pub const CREATE_TIMESTAMP_INDEX_SQL: &'static str =
    "CREATE INDEX IF NOT EXISTS idx_notifications_timestamp ON notifications (timestamp DESC)";

/// Creates the index for reading by app.
pub const CREATE_APP_INDEX_SQL: &'static str =
    "CREATE INDEX IF NOT EXISTS idx_notifications_app ON notifications (app_name)";

/// Inserts a row, in place of one with the same ID.
pub const INSERT_SQL: &'static str =
    "INSERT OR REPLACE INTO notifications (id, app_name, summary, body, app_icon, actions, \
     priority, urgency, category, timestamp, expire_timeout, read, dismissed, close_reason) \
     VALUES (?, ?, ?, ?, ?, ?, ?, ?, ?, ?, ?, ?, ?, ?)";

/// Reads one row.
pub const SELECT_ONE_SQL: &'static str = "SELECT * FROM notifications WHERE id = ?";

/// Reads the rows that are not dismissed, newest first.
pub const SELECT_PENDING_SQL: &'static str =
    "SELECT * FROM notifications WHERE dismissed = 0 ORDER BY timestamp DESC";

/// Reads a page of the history, newest first.
pub const SELECT_HISTORY_SQL: &'static str =
    "SELECT * FROM notifications WHERE timestamp < ? ORDER BY timestamp DESC LIMIT ?";

/// Reads a page of the history of one app, newest first.
pub const SELECT_APP_HISTORY_SQL: &'static str =
    "SELECT * FROM notifications WHERE timestamp < ? AND app_name = ? ORDER BY timestamp DESC \
     LIMIT ?";

/// Marks a row as read.
pub const MARK_READ_SQL: &'static str = "UPDATE notifications SET read = 1 WHERE id = ?";

/// Dismisses a row.
pub const DISMISS_SQL: &'static str =
    "UPDATE notifications SET dismissed = 1, close_reason = ? WHERE id = ?";

/// Deletes the dismissed rows older than a time.
pub const DELETE_OLD_SQL: &'static str =
    "DELETE FROM notifications WHERE timestamp < ? AND dismissed = 1";

/// Deletes all but a number of newest rows.
pub const DELETE_EXCESS_SQL: &'static str =
    "DELETE FROM notifications WHERE id NOT IN (SELECT id FROM notifications ORDER BY \
     timestamp DESC LIMIT ?)";

/// Deletes every row.
pub const DELETE_ALL_SQL: &'static str = "DELETE FROM notifications";

/// Counts the rows that are not dismissed.
pub const COUNT_PENDING_SQL: &'static str =
    "SELECT COUNT(*) FROM notifications WHERE dismissed = 0";

/// Counts the rows that are neither dismissed nor read.
pub const COUNT_UNREAD_SQL: &'static str =
    "SELECT COUNT(*) FROM notifications WHERE dismissed = 0 AND read = 0";

/// Reads the names of all apps with a row.
pub const SELECT_APPS_SQL: &'static str =
    "SELECT DISTINCT app_name FROM notifications ORDER BY app_name";

/// The cursor of a history query that asks for the newest page.
pub const END_OF_TIME: &'static str = "9999-12-31T23:59:59Z";

/// A value bound to a statement.
#[derive(Debug)]
pub enum SqlValue {
    Int(i64),
    Text(String),
    Null,
}

/// The content of a [`SqlValue`].
pub enum SqlArg {
    Int(i64),
    Text(Seq<char>),
    Null,
}

impl View for SqlValue {
    type V = SqlArg;

    open spec fn view(&self) -> SqlArg {
        match *self {
            SqlValue::Int(n) => SqlArg::Int(n),
            SqlValue::Text(s) => SqlArg::Text(s@),
            SqlValue::Null => SqlArg::Null,
        }
    }
}

/// A statement with the values bound to it, in the order of its placeholders.
#[derive(Debug)]
pub struct Statement {
    pub sql: &'static str,
    pub args: Vec<SqlValue>,
}

/// The content of a [`Statement`].
pub struct StatementView {
    pub sql: Seq<char>,
    pub args: Seq<SqlArg>,
}

impl View for Statement {
    type V = StatementView;

    open spec fn view(&self) -> StatementView {
        StatementView {
            sql: self.sql@,
            args: self.args@.map_values(|v: SqlValue| v@),
        }
    }
}

/// The contents of a list of statements.
pub open spec fn statements(list: Seq<Statement>) -> Seq<StatementView> {
    list.map_values(|s: Statement| s@)
}

/// A number stored for a yes or no.
pub open spec fn flag(b: bool) -> i64 {
    if b {
        1
    } else {
        0
    }
}

/// A column that may be empty.
pub open spec fn nullable(n: Option<i64>) -> SqlArg {
    match n {
        Some(n) => SqlArg::Int(n),
        None => SqlArg::Null,
    }
}

/// The statement that stores a notification.
pub open spec fn insert_of(n: NotificationView) -> StatementView {
    let row = row_of(n);
    StatementView {
        sql: INSERT_SQL@,
        args: seq![
            SqlArg::Int(row.id),
            SqlArg::Text(row.app_name),
            SqlArg::Text(row.summary),
            SqlArg::Text(row.body),
            SqlArg::Text(row.app_icon),
            SqlArg::Text(row.actions_json),
            SqlArg::Text(row.priority),
            SqlArg::Int(row.urgency),
            SqlArg::Text(row.category),
            SqlArg::Text(row.timestamp),
            SqlArg::Int(row.expire_timeout),
            SqlArg::Int(flag(row.read)),
            SqlArg::Int(flag(row.dismissed)),
            nullable(row.close_reason),
        ],
    }
}

/// A statement without values.
pub open spec fn plain(sql: Seq<char>) -> StatementView {
    StatementView { sql, args: Seq::empty() }
}

/// The statement that dismisses a notification.
pub open spec fn dismissal_of(id: u32, reason: CloseReason) -> StatementView {
    StatementView {
        sql: DISMISS_SQL@,
        args: seq![SqlArg::Int(reason.spec_code() as i64), SqlArg::Int(id as i64)],
    }
}

/// The statement that reads a page of the history.
pub open spec fn history_query(
    limit: u32,
    before: Option<Seq<char>>,
    app_name: Option<Seq<char>>,
) -> StatementView {
    let cursor = match before {
        Some(ts) => ts,
        None => END_OF_TIME@,
    };
    match app_name {
        Some(app) => StatementView {
            sql: SELECT_APP_HISTORY_SQL@,
            args: seq![SqlArg::Text(cursor), SqlArg::Text(app), SqlArg::Int(limit as i64)],
        },
        None => StatementView {
            sql: SELECT_HISTORY_SQL@,
            args: seq![SqlArg::Text(cursor), SqlArg::Int(limit as i64)],
        },
    }
}

/// The statements that enforce the retention limits: by age where there is a
/// cutoff, then by count where there is a maximum.
pub open spec fn cleanup_of(cutoff: Option<Seq<char>>, max_count: u32) -> Seq<StatementView> {
    let by_age = match cutoff {
        Some(ts) => seq![StatementView { sql: DELETE_OLD_SQL@, args: seq![SqlArg::Text(ts)] }],
        None => Seq::empty(),
    };
    let by_count = if max_count > 0 {
        seq![StatementView { sql: DELETE_EXCESS_SQL@, args: seq![SqlArg::Int(max_count as i64)] }]
    } else {
        Seq::empty()
    };
    by_age + by_count
}

/// The time before which a dismissed notification is too old, as a text;
/// nothing if there is no such time or it cannot be printed.
pub open spec fn cutoff_text(now: Timestamp, max_age_days: u32) -> Option<Seq<char>> {
    match days_before(now.secs, now.nanos, max_age_days) {
        Some((secs, nanos)) => rfc3339_text(secs, nanos),
        None => None,
    }
}

/// Whether an age limit can be applied at a time: there is none, or both the
/// time and the one so many days before lie in the range of dates.
pub open spec fn age_limit_in_range(now: Timestamp, max_age_days: u32) -> bool {
    max_age_days == 0 || (in_range(now.secs as int) && in_range(now.secs - 86400 * max_age_days))
}

/// The sum of a list of numbers.
pub open spec fn total(counts: Seq<u64>) -> nat
    decreases counts.len(),
{
    if counts.len() == 0 {
        0
    } else {
        total(counts.drop_last()) + counts.last() as nat
    }
}

/// The beginning of a list has no larger a sum.
proof fn lemma_total_grows(counts: Seq<u64>, k: int)
    requires
        0 <= k <= counts.len(),
    ensures
        total(counts.take(k)) <= total(counts),
    decreases counts.len(),
{
    if k == counts.len() {
        assert(counts.take(k) =~= counts);
    } else {
        lemma_total_grows(counts.drop_last(), k);
        assert(counts.drop_last().take(k) =~= counts.take(k));
    }
}

/// The text of a string, if there is one.
pub open spec fn text_of(s: Option<&str>) -> Option<Seq<char>> {
    match s {
        Some(s) => Some(s@),
        None => None,
    }
}

/// A statement without values.
fn without_args(sql: &'static str) -> (r: Statement)
    ensures
        r@ == plain(sql@),
{
    let r = Statement { sql, args: Vec::new() };
    assert(r@.args =~= Seq::<SqlArg>::empty());
    r
}

/// A statement with one number.
fn with_number(sql: &'static str, n: i64) -> (r: Statement)
    ensures
        r@ == (StatementView { sql: sql@, args: seq![SqlArg::Int(n)] }),
{
    let mut args: Vec<SqlValue> = Vec::new();
    args.push(SqlValue::Int(n));
    let r = Statement { sql, args };
    assert(r@.args =~= seq![SqlArg::Int(n)]);
    r
}

/// A statement with one text.
fn with_text(sql: &'static str, text: String) -> (r: Statement)
    ensures
        r@ == (StatementView { sql: sql@, args: seq![SqlArg::Text(text@)] }),
{
    let ghost content = text@;
    let mut args: Vec<SqlValue> = Vec::new();
    args.push(SqlValue::Text(text));
    let r = Statement { sql, args };
    assert(r@.args =~= seq![SqlArg::Text(content)]);
    r
}

/// A number stored for a yes or no.
fn flag_number(b: bool) -> (r: i64)
    ensures
        r == flag(b),
{
    if b {
        1
    } else {
        0
    }
}

/// The columns of a row that the daemon reads.
#[derive(Debug)]
pub struct StoredRow {
    pub id: i64,
    pub app_name: String,
    pub summary: String,
    pub body: String,
    pub app_icon: String,
    pub actions: String,
    pub priority: String,
    pub urgency: i64,
    pub category: String,
    pub timestamp: String,
    pub expire_timeout: i64,
    pub read: i64,
}

/// The notification of a row as read from the database.
pub open spec fn stored_notification(row: StoredRow) -> NotificationView {
    NotificationView {
        id: row.id as u32,
        app_name: row.app_name@,
        summary: row.summary@,
        body: row.body@,
        app_icon: row.app_icon@,
        actions: stored_actions(row.actions@),
        priority: text_priority(row.priority@),
        urgency: row.urgency as u8,
        category: row.category@,
        timestamp: row.timestamp@,
        expire_timeout: row.expire_timeout as i32,
        read: row.read != 0,
    }
}

/// Convert a row of the database to a notification.
pub fn row_to_notification(row: &StoredRow) -> (r: Notification)
    ensures
        r@ == stored_notification(*row),
        r.id == row.id as u32,
        r.app_name@ == row.app_name@,
        r.summary@ == row.summary@,
        r.body@ == row.body@,
        r.app_icon@ == row.app_icon@,
        pair_texts(r.actions@) == stored_actions(row.actions@),
        r.priority == text_priority(row.priority@),
        r.urgency == row.urgency as u8,
        r.category@ == row.category@,
        r.timestamp@ == row.timestamp@,
        r.expire_timeout == row.expire_timeout as i32,
        r.read <==> row.read != 0,
{
    Notification {
        id: row.id as u32,
        app_name: row.app_name.clone(),
        summary: row.summary.clone(),
        body: row.body.clone(),
        app_icon: row.app_icon.clone(),
        actions: read_actions(row.actions.as_str()),
        priority: priority_from_str(row.priority.as_str()),
        urgency: row.urgency as u8,
        category: row.category.clone(),
        timestamp: row.timestamp.clone(),
        expire_timeout: row.expire_timeout as i32,
        read: row.read != 0,
    }
}

/// `uuid::Uuid::new_v4`: a random UUID in hyphenated form. Nothing is claimed
/// of which one it is, only that it has 36 characters. A machine without a
/// source of randomness makes it panic.
#[verifier::external_body]
fn random_name() -> (r: String)
    ensures
        r@.len() == 36,
{
    uuid::Uuid::new_v4().to_string()
}

/// Whether a name may be one that was drawn at random.
pub closed spec fn drawn(name: Seq<char>) -> bool {
    exists|s: String| #[trigger] call_ensures(random_name, (), s) && s@ == name
}

/// The persistent notification database, as the statements that it takes.
#[derive(Debug)]
pub struct Database;

impl Database {
    /// The URL of an in-memory database with a name, shared by its connections.
    pub fn memory_url(name: &str) -> (r: String)
        ensures
            r@ == "sqlite:file:"@ + name@ + "?mode=memory&cache=shared"@,
    {
        let head: String = join("sqlite:file:", name);
        join(head.as_str(), "?mode=memory&cache=shared")
    }

    /// The URL of an in-memory database of its own.
    pub fn open_memory() -> (r: String)
        ensures
            exists|name: Seq<char>| #[trigger]
                drawn(name) && name.len() == 36 && r@ == "sqlite:file:"@ + name
                    + "?mode=memory&cache=shared"@,
    {
        let name: String = outcome_of(random_name);
        assert(drawn(name@));
        Database::memory_url(name.as_str())
    }

    /// The statement that prepares for reading the version of the schema.
    pub fn open() -> (r: Statement)
        ensures
            r@ == plain(CREATE_VERSION_SQL@),
    {
        without_args(CREATE_VERSION_SQL)
    }

    /// The statement that reads the version of the schema.
    pub fn schema_version() -> (r: Statement)
        ensures
            r@ == plain(SELECT_VERSION_SQL@),
    {
        without_args(SELECT_VERSION_SQL)
    }

    /// Initialize the schema: given its version, the statements that are left
    /// to run. A database with a version needs none.
    pub fn init(current: Option<i64>) -> (r: Vec<Statement>)
        ensures
            statements(r@) == (if current is Some {
                Seq::empty()
            } else {
                seq![
                    plain(CREATE_NOTIFICATIONS_SQL@),
                    plain(CREATE_TIMESTAMP_INDEX_SQL@),
                    plain(CREATE_APP_INDEX_SQL@),
                    (StatementView {
                        sql: INSERT_VERSION_SQL@,
                        args: seq![SqlArg::Int(SCHEMA_VERSION)],
                    }),
                ]
            }),
    {
        let mut out: Vec<Statement> = Vec::new();
        if current.is_none() {
            out = Database::create_tables();
            let ghost tables = statements(out@);
            out.push(with_number(INSERT_VERSION_SQL, SCHEMA_VERSION));
            assert(statements(out@) =~= tables.push(
                (StatementView {
                    sql: INSERT_VERSION_SQL@,
                    args: seq![SqlArg::Int(SCHEMA_VERSION)],
                }),
            ));
            assert(statements(out@) =~= seq![
                plain(CREATE_NOTIFICATIONS_SQL@),
                plain(CREATE_TIMESTAMP_INDEX_SQL@),
                plain(CREATE_APP_INDEX_SQL@),
                (StatementView {
                    sql: INSERT_VERSION_SQL@,
                    args: seq![SqlArg::Int(SCHEMA_VERSION)],
                }),
            ]);
        } else {
            assert(statements(out@) =~= Seq::empty());
        }
        out
    }

    /// Create all notification tables.
    fn create_tables() -> (r: Vec<Statement>)
        ensures
            statements(r@) == seq![
                plain(CREATE_NOTIFICATIONS_SQL@),
                plain(CREATE_TIMESTAMP_INDEX_SQL@),
                plain(CREATE_APP_INDEX_SQL@),
            ],
    {
        let mut out: Vec<Statement> = Vec::new();
        out.push(without_args(CREATE_NOTIFICATIONS_SQL));
        out.push(without_args(CREATE_TIMESTAMP_INDEX_SQL));
        out.push(without_args(CREATE_APP_INDEX_SQL));
        assert(statements(out@) =~= seq![
            plain(CREATE_NOTIFICATIONS_SQL@),
            plain(CREATE_TIMESTAMP_INDEX_SQL@),
            plain(CREATE_APP_INDEX_SQL@),
        ]);
        out
    }

    /// Insert a notification. If the ID already exists, replace it.
    pub fn insert_notification(n: &Notification) -> (r: Statement)
        ensures
            r@ == insert_of(n@),
            r.args@.len() == 14,
            r.args@[0] == SqlValue::Int(n.id as i64),
            r.args@[1]@ == SqlArg::Text(n.app_name@),
            r.args@[2]@ == SqlArg::Text(n.summary@),
            r.args@[3]@ == SqlArg::Text(n.body@),
            r.args@[4]@ == SqlArg::Text(n.app_icon@),
            r.args@[5]@ == SqlArg::Text(actions_json(pair_texts(n.actions@))),
            r.args@[6]@ == SqlArg::Text(priority_text(n.priority)),
            r.args@[7] == SqlValue::Int(n.urgency as i64),
            r.args@[8]@ == SqlArg::Text(n.category@),
            r.args@[9]@ == SqlArg::Text(n.timestamp@),
            r.args@[10] == SqlValue::Int(n.expire_timeout as i64),
            r.args@[11] == SqlValue::Int(flag(n.read)),
            r.args@[12] == SqlValue::Int(0),
            r.args@[13] == SqlValue::Null,
    {
        let row: NotificationRow = NotificationRow::from_notification(n);
        let mut args: Vec<SqlValue> = Vec::new();
        args.push(SqlValue::Int(row.id));
        args.push(SqlValue::Text(row.app_name));
        args.push(SqlValue::Text(row.summary));
        args.push(SqlValue::Text(row.body));
        args.push(SqlValue::Text(row.app_icon));
        args.push(SqlValue::Text(row.actions_json));
        args.push(SqlValue::Text(row.priority));
        args.push(SqlValue::Int(row.urgency));
        args.push(SqlValue::Text(row.category));
        args.push(SqlValue::Text(row.timestamp));
        args.push(SqlValue::Int(row.expire_timeout));
        args.push(SqlValue::Int(flag_number(row.read)));
        args.push(SqlValue::Int(flag_number(row.dismissed)));
        args.push(
            match row.close_reason {
                Some(code) => SqlValue::Int(code),
                None => SqlValue::Null,
            },
        );
        let r = Statement { sql: INSERT_SQL, args };
        assert(r@.args =~= insert_of(n@).args);
        r
    }

    /// Get a single notification by ID.
    pub fn get_notification(id: u32) -> (r: Statement)
        ensures
            r@ == (StatementView { sql: SELECT_ONE_SQL@, args: seq![SqlArg::Int(id as i64)] }),
    {
        with_number(SELECT_ONE_SQL, id as i64)
    }

    /// Get all pending (not dismissed) notifications, newest first.
    pub fn get_pending() -> (r: Statement)
        ensures
            r@ == plain(SELECT_PENDING_SQL@),
    {
        without_args(SELECT_PENDING_SQL)
    }

    /// Get notification history with pagination.
    ///
    /// `limit`: max results. `before`: timestamp for cursor pagination.
    /// `app_name`: optional filter by app.
    pub fn get_history(limit: u32, before: Option<&str>, app_name: Option<&str>) -> (r: Statement)
        ensures
            r@ == history_query(limit, text_of(before), text_of(app_name)),
            r.args@.len() == (if app_name is Some {
                3int
            } else {
                2
            }),
            r.args@.last() == SqlValue::Int(limit as i64),
            before matches Some(cursor) ==> r.args@[0]@ == SqlArg::Text(cursor@),
            before is None ==> r.args@[0]@ == SqlArg::Text(END_OF_TIME@),
            app_name matches Some(app) ==> r.args@[1]@ == SqlArg::Text(app@),
    {
        let cursor: String = match before {
            Some(ts) => ts.to_string(),
            None => END_OF_TIME.to_string(),
        };
        let mut args: Vec<SqlValue> = Vec::new();
        args.push(SqlValue::Text(cursor));
        let sql: &'static str = match app_name {
            Some(app) => {
                args.push(SqlValue::Text(app.to_string()));
                SELECT_APP_HISTORY_SQL
            },
            None => SELECT_HISTORY_SQL,
        };
        args.push(SqlValue::Int(limit as i64));
        let r = Statement { sql, args };
        assert(r@.args =~= history_query(limit, text_of(before), text_of(app_name)).args);
        r
    }

    /// Whether a notification was found, given the number of rows that marking
    /// it as read, or dismissing it, has changed.
    pub fn found(rows_affected: u64) -> (r: bool)
        ensures
            r == (rows_affected > 0),
    {
        rows_affected > 0
    }

    /// The number of rows that a cleanup has deleted, given the numbers that
    /// its statements have; nothing if it is beyond the largest number.
    pub fn deleted(rows_affected: &Vec<u64>) -> (r: Option<u64>)
        ensures
            r is Some <==> total(rows_affected@) <= u64::MAX,
            r matches Some(n) ==> n == total(rows_affected@),
    {
        let mut sum: u64 = 0;
        let mut i: usize = 0;
        while i < rows_affected.len()
            invariant
                i <= rows_affected@.len(),
                sum == total(rows_affected@.take(i as int)),
            decreases rows_affected@.len() - i,
        {
            proof {
                assert(rows_affected@.take(i + 1).drop_last() =~= rows_affected@.take(i as int));
                lemma_total_grows(rows_affected@, i + 1);
            }
            sum = sum.checked_add(rows_affected[i])?;
            i += 1;
        }
        assert(rows_affected@.take(i as int) =~= rows_affected@);
        Some(sum)
    }

    /// Mark a notification as read.
    pub fn mark_read(id: u32) -> (r: Statement)
        ensures
            r@ == (StatementView { sql: MARK_READ_SQL@, args: seq![SqlArg::Int(id as i64)] }),
    {
        with_number(MARK_READ_SQL, id as i64)
    }

    /// Dismiss a notification with a reason.
    pub fn dismiss(id: u32, reason: CloseReason) -> (r: Statement)
        ensures
            r@ == dismissal_of(id, reason),
            r.args@ == seq![SqlValue::Int(reason.spec_code() as i64), SqlValue::Int(id as i64)],
    {
        let mut args: Vec<SqlValue> = Vec::new();
        args.push(SqlValue::Int(reason.code() as i64));
        args.push(SqlValue::Int(id as i64));
        let r = Statement { sql: DISMISS_SQL, args };
        assert(r@.args =~= dismissal_of(id, reason).args);
        r
    }

    /// Delete dismissed notifications from before `cutoff`, and those that
    /// exceed `max_count`. No cutoff and a maximum of 0 mean no limit.
    pub fn cleanup_before(cutoff: Option<String>, max_count: u32) -> (r: Vec<Statement>)
        ensures
            statements(r@) == cleanup_of(optional_text(cutoff), max_count),
    {
        let ghost limit = optional_text(cutoff);
        let mut out: Vec<Statement> = Vec::new();
        if let Some(ts) = cutoff {
            out.push(with_text(DELETE_OLD_SQL, ts));
        }
        if max_count > 0 {
            out.push(with_number(DELETE_EXCESS_SQL, max_count as i64));
        }
        assert(statements(out@) =~= cleanup_of(limit, max_count));
        out
    }

    /// Delete dismissed notifications older than `max_age_days` at the time
    /// `now`, and those that exceed `max_count`. Zero means no limit. There is
    /// no result where the age limit lies outside the range of dates.
    pub fn cleanup(now: Timestamp, max_age_days: u32, max_count: u32) -> (r: Option<Vec<Statement>>)
        ensures
            r is Some <==> max_age_days == 0 || cutoff_text(now, max_age_days) is Some,
            now.nanos < 1_000_000_000 ==> r is Some == age_limit_in_range(now, max_age_days),
            r matches Some(list) ==> statements(list@) == cleanup_of(
                if max_age_days > 0 {
                    cutoff_text(now, max_age_days)
                } else {
                    None
                },
                max_count,
            ),
            r is Some && max_age_days > 0 && now.nanos < 1_000_000_000 ==> cutoff_text(
                now,
                max_age_days,
            ) == rfc3339_text((now.secs - 86400 * max_age_days) as i64, now.nanos),
    {
        if max_age_days > 0 {
            let (secs, nanos) = subtract_days(now.secs, now.nanos, max_age_days)?;
            let cutoff: String = print_rfc3339(secs, nanos)?;
            Some(Database::cleanup_before(Some(cutoff), max_count))
        } else {
            Some(Database::cleanup_before(None, max_count))
        }
    }

    /// Delete everything.
    pub fn wipe() -> (r: Statement)
        ensures
            r@ == plain(DELETE_ALL_SQL@),
    {
        without_args(DELETE_ALL_SQL)
    }

    /// Count pending (not dismissed) notifications.
    pub fn count_pending() -> (r: Statement)
        ensures
            r@ == plain(COUNT_PENDING_SQL@),
    {
        without_args(COUNT_PENDING_SQL)
    }

    /// Count unread (neither dismissed nor read) notifications.
    pub fn count_unread() -> (r: Statement)
        ensures
            r@ == plain(COUNT_UNREAD_SQL@),
    {
        without_args(COUNT_UNREAD_SQL)
    }

    /// The names of all apps that have sent a stored notification.
    pub fn get_known_apps() -> (r: Statement)
        ensures
            r@ == plain(SELECT_APPS_SQL@),
    {
        without_args(SELECT_APPS_SQL)
    }
}

/// A row that holds what was stored of a notification reads back as that
/// notification: as it was when it arrived, but for having been read.
pub proof fn stored_row_reads_back(row: NotificationRow, n: NotificationView, stored: StoredRow)
    requires
        row@ == row_of(n),
        notification_of(row@) == n,
        stored.id == row.id,
        stored.app_name@ == row.app_name@,
        stored.summary@ == row.summary@,
        stored.body@ == row.body@,
        stored.app_icon@ == row.app_icon@,
        stored.actions@ == row.actions_json@,
        stored.priority@ == row.priority@,
        stored.urgency == row.urgency,
        stored.category@ == row.category@,
        stored.timestamp@ == row.timestamp@,
        stored.expire_timeout == row.expire_timeout,
    ensures
        stored_notification(stored) == (NotificationView { read: stored.read != 0, ..n }),
        stored.read == flag(row.read) ==> stored_notification(stored) == n,
{
}

} // verus!
