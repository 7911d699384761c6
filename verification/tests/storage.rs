//! Rows and statements, run on a real SQLite database, and the manager on top
//! of them.

use lunaris_notification_daemon::clock::Timestamp;
use lunaris_notification_daemon::config::types::HistoryConfig;
use lunaris_notification_daemon::config::{AppOverride, Config, DndMode};
use lunaris_notification_daemon::dbus::server::{CloseReason, Notification, NotifyEvent, Priority};
use lunaris_notification_daemon::dnd::state::EffectiveMode;
use lunaris_notification_daemon::manager::notification::{Incoming, NotifyOutcome, MAX_AGE_DAYS};
use lunaris_notification_daemon::manager::NotificationManager;
use lunaris_notification_daemon::storage::models::{
    actions_or_none, priority_from_str, priority_to_str, NotificationRow,
};
use lunaris_notification_daemon::storage::sqlite::{
    row_to_notification, SqlValue, Statement, StoredRow, DELETE_ALL_SQL, DELETE_EXCESS_SQL,
    DELETE_OLD_SQL,
};
use lunaris_notification_daemon::storage::Database;
use sqlx::sqlite::{SqliteArguments, SqlitePool, SqlitePoolOptions, SqliteRow};
use sqlx::Row;
use tokio::runtime::Runtime;

/// A database in memory, with the runtime that drives it.
struct Store {
    runtime: Runtime,
    pool: SqlitePool,
}

fn bound(statement: &Statement) -> sqlx::query::Query<'_, sqlx::Sqlite, SqliteArguments<'_>> {
    let mut query = sqlx::query(statement.sql);
    for arg in &statement.args {
        query = match arg {
            SqlValue::Int(n) => query.bind(*n),
            SqlValue::Text(t) => query.bind(t.as_str()),
            SqlValue::Null => query.bind(None::<i64>),
        };
    }
    query
}

fn stored(row: &SqliteRow) -> StoredRow {
    StoredRow {
        id: row.get("id"),
        app_name: row.get("app_name"),
        summary: row.get("summary"),
        body: row.get("body"),
        app_icon: row.get("app_icon"),
        actions: row.get("actions"),
        priority: row.get("priority"),
        urgency: row.get("urgency"),
        category: row.get("category"),
        timestamp: row.get("timestamp"),
        expire_timeout: row.get("expire_timeout"),
        read: row.get("read"),
    }
}

impl Store {
    fn open_memory() -> Store {
        let runtime = Runtime::new().unwrap();
        let url = Database::open_memory();
        let pool = runtime
            .block_on(SqlitePoolOptions::new().max_connections(4).connect(&url))
            .unwrap();
        let store = Store { runtime, pool };
        store.run(&Database::open());
        let current = store.number(&Database::schema_version());
        for statement in Database::init(current) {
            store.run(&statement);
        }
        store
    }

    /// Runs a statement and returns the number of affected rows.
    fn run(&self, statement: &Statement) -> u64 {
        self.runtime
            .block_on(async { bound(statement).execute(&self.pool).await })
            .unwrap()
            .rows_affected()
    }

    /// Reads the notifications of a query.
    fn read(&self, statement: &Statement) -> Vec<Notification> {
        let rows = self
            .runtime
            .block_on(async { bound(statement).fetch_all(&self.pool).await })
            .unwrap();
        rows.iter().map(|r| row_to_notification(&stored(r))).collect()
    }

    /// Reads the number of a query.
    fn number(&self, statement: &Statement) -> Option<i64> {
        let row = self
            .runtime
            .block_on(async { bound(statement).fetch_optional(&self.pool).await })
            .unwrap();
        row.map(|r| r.get(0))
    }

    fn insert(&self, n: &Notification) {
        self.run(&Database::insert_notification(n));
    }

    fn get(&self, id: u32) -> Option<Notification> {
        self.read(&Database::get_notification(id)).pop()
    }

    fn count_pending(&self) -> i64 {
        self.number(&Database::count_pending()).unwrap()
    }

    fn cleanup(&self, max_age_days: u32, max_count: u32) -> u64 {
        // 2026-04-09T12:00:00Z
        let now = Timestamp { secs: 1_775_736_000, nanos: 0 };
        let statements = Database::cleanup(now, max_age_days, max_count).unwrap();
        Database::deleted(&statements.iter().map(|s| self.run(s)).collect()).unwrap()
    }
}

fn make_notification(id: u32, app: &str, summary: &str) -> Notification {
    Notification {
        id,
        app_name: app.into(),
        summary: summary.into(),
        body: "body".into(),
        app_icon: "".into(),
        actions: vec![],
        priority: Priority::Normal,
        urgency: 1,
        category: "".into(),
        timestamp: "2026-04-09T12:00:00Z".into(),
        expire_timeout: -1,
        read: false,
    }
}

fn sample_notification() -> Notification {
    Notification {
        id: 1,
        app_name: "Firefox".into(),
        summary: "Download complete".into(),
        body: "file.zip finished".into(),
        app_icon: "firefox".into(),
        actions: vec![("open".into(), "Open".into())],
        priority: Priority::High,
        urgency: 1,
        category: "transfer.complete".into(),
        timestamp: "2026-04-09T12:00:00Z".into(),
        expire_timeout: 5000,
        read: false,
    }
}

fn assert_same(a: &Notification, b: &Notification) {
    assert_eq!(a.id, b.id);
    assert_eq!(a.app_name, b.app_name);
    assert_eq!(a.summary, b.summary);
    assert_eq!(a.body, b.body);
    assert_eq!(a.app_icon, b.app_icon);
    assert_eq!(a.actions, b.actions);
    assert_eq!(a.priority, b.priority);
    assert_eq!(a.urgency, b.urgency);
    assert_eq!(a.category, b.category);
    assert_eq!(a.timestamp, b.timestamp);
    assert_eq!(a.expire_timeout, b.expire_timeout);
    assert_eq!(a.read, b.read);
}

#[test]
fn test_roundtrip_conversion() {
    let n = sample_notification();
    let row = NotificationRow::from_notification(&n);
    let back = row.to_notification();

    assert_eq!(back.id, n.id);
    assert_eq!(back.app_name, n.app_name);
    assert_eq!(back.summary, n.summary);
    assert_eq!(back.body, n.body);
    assert_eq!(back.priority, n.priority);
    assert_eq!(back.actions.len(), 1);
    assert_eq!(back.actions[0].0, "open");
}

#[test]
fn test_priority_str_roundtrip() {
    for p in [Priority::Low, Priority::Normal, Priority::High, Priority::Critical] {
        assert_eq!(priority_from_str(&priority_to_str(p)), p);
    }
}

#[test]
fn test_dismissed_defaults() {
    let n = sample_notification();
    let row = NotificationRow::from_notification(&n);
    assert!(!row.dismissed);
    assert!(row.close_reason.is_none());
}

#[test]
fn rows_give_everything_back() {
    let n = Notification {
        id: u32::MAX,
        actions: vec![("a\"b".into(), "\\ü\n\u{1F30D}".into()), ("".into(), "".into())],
        urgency: 255,
        expire_timeout: i32::MIN,
        read: true,
        ..sample_notification()
    };
    let row = NotificationRow::from_notification(&n);
    assert_eq!(row.actions_json, "[[\"a\\\"b\",\"\\\\ü\\n\u{1F30D}\"],[\"\",\"\"]]");
    assert_same(&row.to_notification(), &n);
}

#[test]
fn unknown_texts_fall_back() {
    assert_eq!(priority_from_str("urgent"), Priority::Normal);
    assert_eq!(priority_from_str(""), Priority::Normal);
    let mut row = NotificationRow::from_notification(&sample_notification());
    row.actions_json = "{\"open\":1}".into();
    assert!(row.to_notification().actions.is_empty());
    assert!(actions_or_none(None).is_empty());
}

#[test]
fn test_open_memory() {
    let db = Store::open_memory();
    assert_eq!(db.count_pending(), 0);
}

#[test]
fn memory_databases_are_apart() {
    assert_ne!(Database::open_memory(), Database::open_memory());
    assert_eq!(Database::memory_url("x"), "sqlite:file:x?mode=memory&cache=shared");
}

#[test]
fn schema_is_created_once() {
    let db = Store::open_memory();
    let current = db.number(&Database::schema_version());
    assert_eq!(current, Some(1));
    assert!(Database::init(current).is_empty());
    assert_eq!(Database::init(None).len(), 4);
}

#[test]
fn test_insert_and_get() {
    let db = Store::open_memory();
    let n = make_notification(1, "Firefox", "Download done");
    db.insert(&n);

    let fetched = db.get(1).unwrap();
    assert_eq!(fetched.id, 1);
    assert_eq!(fetched.app_name, "Firefox");
    assert_eq!(fetched.summary, "Download done");
}

#[test]
fn stored_rows_read_back() {
    let db = Store::open_memory();
    let n = Notification { id: u32::MAX, read: true, ..sample_notification() };
    db.insert(&n);
    assert_same(&db.get(u32::MAX).unwrap(), &n);
}

#[test]
fn test_get_nonexistent() {
    let db = Store::open_memory();
    assert!(db.get(999).is_none());
}

#[test]
fn test_replace_notification() {
    let db = Store::open_memory();
    let mut n = make_notification(1, "App", "Old");
    db.insert(&n);

    n.summary = "New".into();
    db.insert(&n);

    let fetched = db.get(1).unwrap();
    assert_eq!(fetched.summary, "New");

    // Should still be only 1 row.
    assert_eq!(db.count_pending(), 1);
}

#[test]
fn test_get_pending() {
    let db = Store::open_memory();
    db.insert(&make_notification(1, "A", "a"));
    db.insert(&make_notification(2, "B", "b"));

    // Dismiss one.
    db.run(&Database::dismiss(1, CloseReason::Dismissed));

    let pending = db.read(&Database::get_pending());
    assert_eq!(pending.len(), 1);
    assert_eq!(pending[0].id, 2);
}

#[test]
fn test_mark_read() {
    let db = Store::open_memory();
    db.insert(&make_notification(1, "A", "a"));

    assert!(Database::found(db.run(&Database::mark_read(1))));
    let n = db.get(1).unwrap();
    assert!(n.read);

    // Non-existent returns false.
    assert!(!Database::found(db.run(&Database::mark_read(999))));
}

#[test]
fn test_dismiss() {
    let db = Store::open_memory();
    db.insert(&make_notification(1, "A", "a"));

    assert!(Database::found(db.run(&Database::dismiss(1, CloseReason::Expired))));
    assert_eq!(db.count_pending(), 0);

    // Still in DB (just dismissed).
    assert!(db.get(1).is_some());
}

#[test]
fn test_get_history_with_limit() {
    let db = Store::open_memory();
    for i in 1..=10 {
        let mut n = make_notification(i, "App", &format!("msg {i}"));
        // Offset timestamps so ordering is deterministic.
        n.timestamp = format!("2026-04-09T12:00:{:02}Z", i);
        db.insert(&n);
    }

    let history = db.read(&Database::get_history(5, None, None));
    assert_eq!(history.len(), 5);
    // Newest first.
    assert_eq!(history[0].id, 10);
    assert_eq!(history[4].id, 6);
}

#[test]
fn test_get_history_by_app() {
    let db = Store::open_memory();
    db.insert(&make_notification(1, "Firefox", "a"));
    db.insert(&make_notification(2, "Spotify", "b"));
    db.insert(&make_notification(3, "Firefox", "c"));

    let history = db.read(&Database::get_history(10, None, Some("Firefox")));
    assert_eq!(history.len(), 2);
    assert!(history.iter().all(|n| n.app_name == "Firefox"));
}

#[test]
fn test_get_history_cursor_pagination() {
    let db = Store::open_memory();
    for i in 1..=5 {
        let mut n = make_notification(i, "App", &format!("msg {i}"));
        n.timestamp = format!("2026-04-09T12:00:{:02}Z", i);
        db.insert(&n);
    }

    // Get page 1 (newest 2).
    let page1 = db.read(&Database::get_history(2, None, None));
    assert_eq!(page1.len(), 2);
    assert_eq!(page1[0].id, 5);
    assert_eq!(page1[1].id, 4);

    // Get page 2 (before oldest of page 1).
    let page2 = db.read(&Database::get_history(2, Some(&page1[1].timestamp), None));
    assert_eq!(page2.len(), 2);
    assert_eq!(page2[0].id, 3);
    assert_eq!(page2[1].id, 2);
}

#[test]
fn test_cleanup_by_count() {
    let db = Store::open_memory();
    for i in 1..=10 {
        let mut n = make_notification(i, "App", &format!("msg {i}"));
        n.timestamp = format!("2026-04-09T12:00:{:02}Z", i);
        db.insert(&n);
    }

    // Keep only 5.
    let deleted = db.cleanup(0, 5);
    assert_eq!(deleted, 5);

    let all = db.read(&Database::get_history(100, None, None));
    assert_eq!(all.len(), 5);
    // Kept the newest 5 (ids 6-10).
    assert_eq!(all[0].id, 10);
}

#[test]
fn test_cleanup_by_age() {
    let db = Store::open_memory();

    // Insert an old dismissed notification.
    let mut old = make_notification(1, "App", "old");
    old.timestamp = "2020-01-01T00:00:00Z".into();
    db.insert(&old);
    db.run(&Database::dismiss(1, CloseReason::Expired));

    // Insert a recent notification.
    db.insert(&make_notification(2, "App", "new"));

    let deleted = db.cleanup(30, 0);
    assert_eq!(deleted, 1);

    // Recent one still there.
    assert!(db.get(2).is_some());
    // Old one gone.
    assert!(db.get(1).is_none());
}

#[test]
fn test_cleanup_skips_undismissed() {
    let db = Store::open_memory();

    let mut old = make_notification(1, "App", "old but pending");
    old.timestamp = "2020-01-01T00:00:00Z".into();
    db.insert(&old);
    // NOT dismissed.

    let deleted = db.cleanup(30, 0);
    assert_eq!(deleted, 0, "should not delete undismissed notifications");
}

#[test]
fn test_count_pending() {
    let db = Store::open_memory();
    db.insert(&make_notification(1, "A", "a"));
    db.insert(&make_notification(2, "B", "b"));
    assert_eq!(db.count_pending(), 2);

    db.run(&Database::dismiss(1, CloseReason::Dismissed));
    assert_eq!(db.count_pending(), 1);
}

#[test]
fn known_apps_are_named_once() {
    let db = Store::open_memory();
    db.insert(&make_notification(1, "B", "a"));
    db.insert(&make_notification(2, "A", "b"));
    db.insert(&make_notification(3, "B", "c"));
    let statement = Database::get_known_apps();
    let rows = db
        .runtime
        .block_on(async { bound(&statement).fetch_all(&db.pool).await })
        .unwrap();
    let names: Vec<String> = rows.iter().map(|r| r.get(0)).collect();
    assert_eq!(names, vec!["A", "B"]);
}

#[test]
fn cutoff_is_days_ago() {
    let now = Timestamp { secs: 1_775_736_000, nanos: 500_000_000 };
    let statements = Database::cleanup(now, 30, 7).unwrap();
    assert_eq!(statements[0].sql, DELETE_OLD_SQL);
    assert!(
        matches!(&statements[0].args[0], SqlValue::Text(t) if t == "2026-03-10T12:00:00.500+00:00")
    );
    assert_eq!(statements[1].sql, DELETE_EXCESS_SQL);
    assert!(matches!(statements[1].args[0], SqlValue::Int(7)));
    assert!(Database::cleanup(now, 0, 0).unwrap().is_empty());
    // Farther back than any date can be.
    assert!(Database::cleanup(now, u32::MAX, 0).is_none());
    assert!(Database::cleanup_before(None, 0).is_empty());
}

// The manager, with its outcomes carried out.

fn incoming<'a>(id: u32, app_name: &'a str, summary: &'a str, body: &'a str) -> Incoming<'a> {
    Incoming {
        id,
        app_name,
        app_icon: "",
        summary,
        body,
        actions: &[],
        urgency: 1,
        category: "",
        expire_timeout: -1,
    }
}

/// Hands an input to the manager.
fn handle(mgr: &mut NotificationManager, input: &Incoming<'_>) -> NotifyOutcome {
    mgr.handle_notify(
        input.id,
        input.app_name,
        input.app_icon,
        input.summary,
        input.body,
        input.actions,
        input.urgency,
        input.category,
        input.expire_timeout,
    )
}

fn notify(mgr: &mut NotificationManager, db: &Store, input: &Incoming<'_>) -> NotifyOutcome {
    let outcome = handle(mgr, input);
    if let Some(n) = &outcome.store {
        db.insert(n);
    }
    outcome
}

#[test]
fn test_handle_notify_stores_and_broadcasts() {
    let db = Store::open_memory();
    let mut mgr = NotificationManager::new(Config::default());

    let outcome = notify(&mut mgr, &db, &incoming(1, "Firefox", "Done", "file.zip"));
    assert_eq!(outcome.id, 1);

    // Should be in DB.
    let n = db.get(1).unwrap();
    assert_eq!(n.summary, "Done");

    // Should have broadcast.
    assert!(matches!(outcome.event, Some(NotifyEvent::Added(_))));
}

#[test]
fn test_handle_notify_dnd_suppresses() {
    let db = Store::open_memory();
    let mut config = Config::default();
    config.dnd.mode = DndMode::Priority;
    let mut mgr = NotificationManager::new(config);

    let outcome = notify(&mut mgr, &db, &incoming(1, "App", "Hello", ""));
    assert_eq!(outcome.id, 1);

    // Should be in DB (stored even if suppressed).
    assert!(db.get(1).is_some());

    // Should NOT have broadcast.
    assert!(outcome.event.is_none());
    // Clients are told the configured mode from now on.
    assert_eq!(mgr.dnd_mode(), DndMode::Priority);
}

#[test]
fn test_handle_notify_critical_bypasses_dnd() {
    let mut config = Config::default();
    config.dnd.mode = DndMode::Priority;
    let mut mgr = NotificationManager::new(config);

    let outcome = handle(&mut mgr, &Incoming { urgency: 2, ..incoming(1, "App", "ALERT", "") });

    // Critical should broadcast even with DND on.
    assert!(matches!(outcome.event, Some(NotifyEvent::Added(_))));
}

#[test]
fn test_handle_notify_rate_limited() {
    let mut mgr = NotificationManager::new(Config::default());

    for i in 1..=10 {
        let outcome = handle(&mut mgr, &incoming(i, "Spammy", "msg", ""));
        assert_eq!(outcome.id, i);
    }

    // 11th should be rate-limited (returns 0).
    let outcome = handle(&mut mgr, &incoming(11, "Spammy", "msg", ""));
    assert_eq!(outcome.id, 0);
    assert!(outcome.store.is_none() && outcome.event.is_none());
}

#[test]
fn test_handle_close() {
    let db = Store::open_memory();
    let mut mgr = NotificationManager::new(Config::default());
    notify(&mut mgr, &db, &incoming(1, "App", "Hello", ""));
    assert_eq!(db.count_pending(), 1);

    let (statement, event) = mgr.handle_close(1, CloseReason::Dismissed);
    db.run(&statement);
    assert!(matches!(event, NotifyEvent::Closed { id: 1, .. }));

    // Should be dismissed in DB.
    assert_eq!(db.count_pending(), 0);
    assert_eq!(mgr.unread_count(db.number(&Database::count_unread())), 0);
}

#[test]
fn test_fullscreen_queues_and_flushes() {
    let mut mgr = NotificationManager::new(Config::default());
    assert!(mgr.set_fullscreen(true).is_empty());

    let outcome = handle(&mut mgr, &incoming(1, "App", "Hello", ""));

    // Should NOT broadcast (queued).
    assert!(outcome.event.is_none());
    assert!(outcome.store.is_some());

    // Exit fullscreen -> flush.
    let events = mgr.set_fullscreen(false);
    assert_eq!(events.len(), 1);
    assert!(matches!(events[0], NotifyEvent::Added(_)));
    assert!(mgr.set_fullscreen(false).is_empty());
}

#[test]
fn test_input_sanitization() {
    let db = Store::open_memory();
    let mut mgr = NotificationManager::new(Config::default());
    let long_name = "X".repeat(200);

    notify(&mut mgr, &db, &incoming(1, &long_name, "", "body"));

    let n = db.get(1).unwrap();
    assert_eq!(n.app_name.len(), 50); // Truncated.
    assert_eq!(n.summary, n.app_name); // Empty summary -> app_name.
}

#[test]
fn flush_shows_the_first_five() {
    let mut mgr = NotificationManager::new(Config::default());
    mgr.set_fullscreen(true);
    for i in 1..=7 {
        handle(&mut mgr, &incoming(i, "App", "Hello", ""));
    }
    let ids: Vec<u32> = mgr
        .set_fullscreen(false)
        .iter()
        .map(|e| match e {
            NotifyEvent::Added(n) => n.id,
            _ => 0,
        })
        .collect();
    assert_eq!(ids, vec![1, 2, 3, 4, 5]);
    assert!(mgr.set_fullscreen(false).is_empty());
}

#[test]
fn outcome_at_given_times() {
    let mut mgr = NotificationManager::new(Config::default());
    let actions = vec!["k".to_string(), "l".to_string(), "orphan".to_string()];
    let input = Incoming { actions: &actions, ..incoming(4, "App", "<b>Hi</b>", "a &amp; b") };
    let time = "2026-04-09T12:00:00Z";
    let outcome = mgr.handle_notify_at(&input, 5, time.into(), EffectiveMode::Off);
    let n = outcome.store.unwrap();
    assert_eq!((n.id, n.summary.as_str(), n.body.as_str()), (4, "Hi", "a & b"));
    assert_eq!(n.actions, vec![("k".to_string(), "l".to_string())]);
    assert_eq!(n.timestamp, time);
    assert_eq!(n.priority, Priority::Normal);
    assert!(!n.read);

    let outcome = mgr.handle_notify_at(&input, 6, time.into(), EffectiveMode::Total);
    assert_eq!(outcome.id, 4);
    assert!(outcome.store.is_none() && outcome.event.is_none());

    // Eight more fill the limit of the app, until the window has passed.
    for _ in 0..8 {
        assert_eq!(mgr.handle_notify_at(&input, 6, time.into(), EffectiveMode::Off).id, 4);
    }
    assert_eq!(mgr.handle_notify_at(&input, 7, time.into(), EffectiveMode::Off).id, 0);
    let later = 1_000_000_005;
    assert_eq!(mgr.handle_notify_at(&input, later, time.into(), EffectiveMode::Off).id, 4);
}

#[test]
fn app_overrides_apply() {
    let mut config = Config::default();
    config.apps.insert(
        "loud".into(),
        AppOverride { priority: Some("critical".into()), ..Default::default() },
    );
    config.apps.insert(
        "odd".into(),
        AppOverride { priority: Some("urgent".into()), ..Default::default() },
    );
    config.apps.insert(
        "blocked".into(),
        AppOverride { enabled: Some(false), ..Default::default() },
    );
    config.dnd.mode = DndMode::Priority;
    let mut mgr = NotificationManager::new(config);
    let loud = handle(&mut mgr, &incoming(1, "loud", "s", ""));
    assert_eq!(loud.store.unwrap().priority, Priority::Critical);
    assert!(loud.event.is_some());
    let odd = handle(&mut mgr, &incoming(2, "odd", "s", ""));
    assert_eq!(odd.store.unwrap().priority, Priority::Normal);
    assert!(odd.event.is_none());
    let blocked = handle(&mut mgr, &Incoming { urgency: 2, ..incoming(3, "blocked", "s", "") });
    assert_eq!(blocked.id, 3);
    assert!(blocked.store.is_none() && blocked.event.is_none());
}

#[test]
fn history_off_stores_nothing_and_wipes() {
    let db = Store::open_memory();
    db.insert(&make_notification(1, "A", "a"));
    let mut config = Config::default();
    config.history = HistoryConfig { enabled: false, max_age_days: 30, max_count: 10 };
    let mut mgr = NotificationManager::new(config);
    let outcome = handle(&mut mgr, &incoming(2, "App", "s", ""));
    assert!(outcome.store.is_none() && outcome.event.is_some());
    let statements = mgr.cleanup().unwrap();
    assert_eq!(statements.len(), 1);
    assert_eq!(statements[0].sql, DELETE_ALL_SQL);
    assert_eq!(db.run(&statements[0]), 1);
    assert!(db.get(1).is_none());

    mgr.set_config(Config::default());
    let now = Timestamp { secs: 1_775_736_000, nanos: 0 };
    let statements = mgr.cleanup_at(now).unwrap();
    assert_eq!(statements.len(), 2);
    assert!(
        matches!(&statements[0].args[0], SqlValue::Text(t) if t == "2026-03-10T12:00:00+00:00")
    );
    assert!(matches!(statements[1].args[0], SqlValue::Int(1000)));
}

#[test]
fn focus_through_the_manager() {
    let mut mgr = NotificationManager::new(Config::default());
    mgr.activate_focus("p".into(), vec!["Slack".into()]);
    assert!(handle(&mut mgr, &incoming(1, "slack", "s", "")).event.is_none());
    assert!(handle(&mut mgr, &incoming(2, "mail", "s", "")).event.is_some());
    mgr.deactivate_focus();
    assert!(handle(&mut mgr, &incoming(3, "slack", "s", "")).event.is_some());
    mgr.set_dnd_mode(DndMode::Total);
    assert_eq!(mgr.dnd_mode(), DndMode::Total);
}

#[test]
fn stored_timestamp_is_readable() {
    let mut mgr = NotificationManager::new(Config::default());
    let n = handle(&mut mgr, &incoming(1, "App", "s", "")).store.unwrap();
    assert!(chrono::DateTime::parse_from_rfc3339(&n.timestamp).is_ok());
    assert!(n.timestamp.ends_with("+00:00"));
}

#[test]
fn unread_count_leaves_out_what_was_read() {
    let db = Store::open_memory();
    let mut mgr = NotificationManager::new(Config::default());
    let unread = |mgr: &NotificationManager| mgr.unread_count(db.number(&Database::count_unread()));
    assert_eq!(unread(&mgr), 0);
    assert_eq!(notify(&mut mgr, &db, &incoming(1, "App", "Hello", "")).id, 1);
    notify(&mut mgr, &db, &incoming(2, "App", "Hello", ""));
    notify(&mut mgr, &db, &incoming(3, "App", "Hello", ""));
    assert_eq!(unread(&mgr), 3);
    assert!(db.run(&Database::mark_read(1)) > 0);
    assert_eq!(unread(&mgr), 2);
    assert_eq!(db.count_pending(), 3);
    db.run(&Database::dismiss(2, CloseReason::Dismissed));
    assert_eq!(unread(&mgr), 1);
    db.run(&Database::mark_read(3));
    assert_eq!(unread(&mgr), 0);
    assert_eq!(mgr.unread_count(Some(3)), 3);
    assert_eq!(mgr.unread_count(None), 0);
}

#[test]
fn age_limits_keep_to_the_range_of_dates() {
    let first = -8_334_601_228_800;
    let last = 8_210_266_876_799;
    let cleanup = |secs, nanos, days| Database::cleanup(Timestamp { secs, nanos }, days, 0);
    assert!(cleanup(last, 999_999_999, 1).is_some());
    assert!(cleanup(last + 1, 0, 1).is_none());
    assert!(cleanup(first + 86400, 0, 1).is_some());
    assert!(cleanup(first + 86399, 999_999_999, 1).is_none());
    assert!(cleanup(first, 0, 1).is_none());
    assert!(cleanup(first - 1, 0, 1).is_none());
    assert!(cleanup(i64::MIN, 0, u32::MAX).is_none());
    assert!(cleanup(0, 0, MAX_AGE_DAYS).is_some());
    assert!(cleanup(0, 0, MAX_AGE_DAYS + 1).is_none());
    // Without an age limit the time does not matter.
    assert!(cleanup(i64::MAX, 0, 0).is_some());

    let mut config = Config::default();
    config.history.max_age_days = MAX_AGE_DAYS;
    assert_eq!(NotificationManager::new(config).cleanup().unwrap().len(), 2);
    let mut config = Config::default();
    config.history.max_age_days = u32::MAX;
    assert!(NotificationManager::new(config).cleanup().is_none());
}

#[test]
fn deleted_rows_are_summed() {
    assert_eq!(Database::deleted(&vec![]), Some(0));
    assert_eq!(Database::deleted(&vec![3, 0, 4]), Some(7));
    assert_eq!(Database::deleted(&vec![u64::MAX - 1, 1]), Some(u64::MAX));
    assert_eq!(Database::deleted(&vec![u64::MAX, 1]), None);
    assert!(!Database::found(0) && Database::found(1) && Database::found(2));
    assert!(!Database::found(Store::open_memory().run(&Database::dismiss(5, CloseReason::Closed))));
}

#[test]
fn age_and_count_deletions_add_up() {
    let db = Store::open_memory();
    for i in 1..=4 {
        let mut n = make_notification(i, "App", "s");
        n.timestamp = format!("2026-04-0{i}T12:00:00Z");
        db.insert(&n);
    }
    let mut old = make_notification(5, "App", "old");
    old.timestamp = "2020-01-01T00:00:00Z".into();
    db.insert(&old);
    db.run(&Database::dismiss(5, CloseReason::Expired));
    assert_eq!(db.cleanup(30, 3), 2);
}
