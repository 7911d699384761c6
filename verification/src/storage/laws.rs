//! What holds of every statement on the database and of every stored row.

use crate::dbus::server::{CloseReason, NotificationView, Priority};
use crate::storage::models::{
    actions_json, json_actions, notification_of, priority_text, row_of, stored_actions,
    stored_priority_reads_back, text_priority, RowView,
};
use crate::storage::sqlite::{
    cleanup_of, dismissal_of, flag, history_query, insert_of, nullable, stored_notification, total,
    SqlArg, StoredRow, COUNT_PENDING_SQL, COUNT_UNREAD_SQL, DELETE_ALL_SQL, DELETE_EXCESS_SQL,
    DELETE_OLD_SQL, DISMISS_SQL, END_OF_TIME, INSERT_SQL, MARK_READ_SQL, SELECT_APP_HISTORY_SQL,
    SELECT_HISTORY_SQL, SELECT_ONE_SQL, SELECT_PENDING_SQL,
};
use vstd::prelude::*;

verus! {

/// Every history query binds its limit last, so that no page holds more
/// notifications than were asked for, whatever the cursor and the filter are.
pub proof fn history_query_binds_its_limit(
    limit: u32,
    before: Option<Seq<char>>,
    app_name: Option<Seq<char>>,
)
    ensures
        history_query(limit, before, app_name).args.len() > 0,
        history_query(limit, before, app_name).args.last() == SqlArg::Int(limit as i64),
{
}

/// Two history queries that differ in the limit alone differ in the last value
/// alone.
pub proof fn limit_changes_the_last_value_only(
    a: u32,
    b: u32,
    before: Option<Seq<char>>,
    app_name: Option<Seq<char>>,
)
    ensures
        history_query(a, before, app_name).sql == history_query(b, before, app_name).sql,
        history_query(a, before, app_name).args.drop_last() == history_query(
            b,
            before,
            app_name,
        ).args.drop_last(),
        a != b ==> history_query(a, before, app_name).args.last() != history_query(
            b,
            before,
            app_name,
        ).args.last(),
{
    assert(history_query(a, before, app_name).args.drop_last() =~= history_query(
        b,
        before,
        app_name,
    ).args.drop_last());
}

/// Every history query binds its cursor first: the one asked for, or a time
/// after all others.
pub proof fn history_query_binds_its_cursor(
    limit: u32,
    cursor: Seq<char>,
    app_name: Option<Seq<char>>,
)
    ensures
        history_query(limit, Some(cursor), app_name).args[0] == SqlArg::Text(cursor),
        history_query(limit, None, app_name) == history_query(limit, Some(END_OF_TIME@), app_name),
        END_OF_TIME@ == "9999-12-31T23:59:59Z"@,
{
}

/// A query for one app binds the app between cursor and limit; the query for
/// all apps binds the same cursor and limit, and nothing else.
pub proof fn app_filter_is_bound_between(limit: u32, before: Option<Seq<char>>, app: Seq<char>)
    ensures
        ({
            let of_app = history_query(limit, before, Some(app));
            let of_all = history_query(limit, before, None);
            &&& of_all.args.len() == 2
            &&& of_app.args == of_all.args.insert(1, SqlArg::Text(app))
            &&& of_app.sql == SELECT_APP_HISTORY_SQL@
            &&& of_all.sql == SELECT_HISTORY_SQL@
        }),
{
    assert(history_query(limit, before, Some(app)).args =~= history_query(
        limit,
        before,
        None,
    ).args.insert(1, SqlArg::Text(app)));
}

/// The two history queries are the same but for the condition on the app: what
/// comes before a time, newest first, up to a limit.
pub proof fn history_queries_differ_in_the_app()
    ensures
        SELECT_HISTORY_SQL@ == "SELECT * FROM notifications WHERE timestamp < ?"@
            + " ORDER BY timestamp DESC LIMIT ?"@,
        SELECT_APP_HISTORY_SQL@ == "SELECT * FROM notifications WHERE timestamp < ?"@
            + " AND app_name = ?"@ + " ORDER BY timestamp DESC LIMIT ?"@,
{
    reveal_strlit(
        "SELECT * FROM notifications WHERE timestamp < ? ORDER BY timestamp DESC LIMIT ?",
    );
    reveal_strlit(
        "SELECT * FROM notifications WHERE timestamp < ? AND app_name = ? ORDER BY timestamp DESC \
         LIMIT ?",
    );
    reveal_strlit("SELECT * FROM notifications WHERE timestamp < ?");
    reveal_strlit(" AND app_name = ?");
    reveal_strlit(" ORDER BY timestamp DESC LIMIT ?");
}

/// Pending notifications are read and counted by the same condition; unread
/// ones are those of them that are not read.
pub proof fn unread_is_pending_and_not_read()
    ensures
        SELECT_PENDING_SQL@ == "SELECT * FROM notifications"@ + " WHERE dismissed = 0"@
            + " ORDER BY timestamp DESC"@,
        COUNT_PENDING_SQL@ == "SELECT COUNT(*) FROM notifications"@ + " WHERE dismissed = 0"@,
        COUNT_UNREAD_SQL@ == COUNT_PENDING_SQL@ + " AND read = 0"@,
{
    reveal_strlit("SELECT * FROM notifications WHERE dismissed = 0 ORDER BY timestamp DESC");
    reveal_strlit("SELECT COUNT(*) FROM notifications WHERE dismissed = 0");
    reveal_strlit("SELECT COUNT(*) FROM notifications WHERE dismissed = 0 AND read = 0");
    reveal_strlit("SELECT * FROM notifications");
    reveal_strlit("SELECT COUNT(*) FROM notifications");
    reveal_strlit(" WHERE dismissed = 0");
    reveal_strlit(" ORDER BY timestamp DESC");
    reveal_strlit(" AND read = 0");
}

/// Reading, marking and dismissing one notification all pick it by its ID, and
/// change no more than the columns they are for.
pub proof fn one_notification_is_picked_by_its_id()
    ensures
        SELECT_ONE_SQL@ == "SELECT * FROM notifications"@ + " WHERE id = ?"@,
        MARK_READ_SQL@ == "UPDATE notifications SET read = 1"@ + " WHERE id = ?"@,
        DISMISS_SQL@ == "UPDATE notifications SET dismissed = 1, close_reason = ?"@
            + " WHERE id = ?"@,
{
    reveal_strlit("SELECT * FROM notifications WHERE id = ?");
    reveal_strlit("UPDATE notifications SET read = 1 WHERE id = ?");
    reveal_strlit("UPDATE notifications SET dismissed = 1, close_reason = ? WHERE id = ?");
    reveal_strlit("SELECT * FROM notifications");
    reveal_strlit("UPDATE notifications SET read = 1");
    reveal_strlit("UPDATE notifications SET dismissed = 1, close_reason = ?");
    reveal_strlit(" WHERE id = ?");
}

/// The deletions by age and by count delete what a wipe deletes, under a
/// condition: dismissed and older than a time, or not among the newest.
pub proof fn cleanup_deletes_less_than_a_wipe()
    ensures
        DELETE_ALL_SQL@ == "DELETE FROM notifications"@,
        DELETE_OLD_SQL@ == DELETE_ALL_SQL@ + " WHERE timestamp < ? AND dismissed = 1"@,
        DELETE_EXCESS_SQL@ == DELETE_ALL_SQL@ + " WHERE id NOT IN ("@
            + "SELECT id FROM notifications ORDER BY timestamp DESC LIMIT ?"@ + ")"@,
{
    reveal_strlit("DELETE FROM notifications");
    reveal_strlit("DELETE FROM notifications WHERE timestamp < ? AND dismissed = 1");
    reveal_strlit(
        "DELETE FROM notifications WHERE id NOT IN (SELECT id FROM notifications ORDER BY \
         timestamp DESC LIMIT ?)",
    );
    reveal_strlit(" WHERE timestamp < ? AND dismissed = 1");
    reveal_strlit(" WHERE id NOT IN (");
    reveal_strlit("SELECT id FROM notifications ORDER BY timestamp DESC LIMIT ?");
    reveal_strlit(")");
}

/// A cleanup has one statement for each limit that is set: first the one by
/// age, which binds the cutoff, then the one by count, which binds the maximum.
pub proof fn cleanup_applies_each_limit(cutoff: Option<Seq<char>>, max_count: u32)
    ensures
        ({
            let all = cleanup_of(cutoff, max_count);
            let by_age = if cutoff is Some {
                1int
            } else {
                0
            };
            let by_count = if max_count > 0 {
                1int
            } else {
                0
            };
            &&& all.len() == by_age + by_count
            &&& cutoff is Some ==> all[0].sql == DELETE_OLD_SQL@ && all[0].args == seq![
                SqlArg::Text(cutoff->0),
            ]
            &&& max_count > 0 ==> all.last().sql == DELETE_EXCESS_SQL@ && all.last().args == seq![
                SqlArg::Int(max_count as i64),
            ]
        }),
{
}

/// A dismissal binds the number of the reason, then the ID. Different reasons
/// have different numbers.
pub proof fn dismissal_binds_reason_and_id(id: u32, reason: CloseReason)
    ensures
        dismissal_of(id, reason).sql == DISMISS_SQL@,
        dismissal_of(id, reason).args.len() == 2,
        dismissal_of(id, reason).args[1] == SqlArg::Int(id as i64),
        dismissal_of(id, CloseReason::Expired).args[0] == SqlArg::Int(1),
        dismissal_of(id, CloseReason::Dismissed).args[0] == SqlArg::Int(2),
        dismissal_of(id, CloseReason::Closed).args[0] == SqlArg::Int(3),
        dismissal_of(id, CloseReason::Undefined).args[0] == SqlArg::Int(4),
{
}

/// The columns of an insertion, in the order in which values are bound.
pub proof fn insertion_names_its_columns()
    ensures
        INSERT_SQL@ == "INSERT OR REPLACE INTO notifications ("@
            + "id, app_name, summary, body, app_icon, actions, "@
            + "priority, urgency, category, timestamp, expire_timeout, "@
            + "read, dismissed, close_reason"@ + ") VALUES ("@
            + "?, ?, ?, ?, ?, ?, ?, ?, ?, ?, ?, ?, ?, ?"@ + ")"@,
{
    reveal_strlit(
        "INSERT OR REPLACE INTO notifications (id, app_name, summary, body, app_icon, actions, \
         priority, urgency, category, timestamp, expire_timeout, read, dismissed, close_reason) \
         VALUES (?, ?, ?, ?, ?, ?, ?, ?, ?, ?, ?, ?, ?, ?)",
    );
    reveal_strlit("INSERT OR REPLACE INTO notifications (");
    reveal_strlit("id, app_name, summary, body, app_icon, actions, ");
    reveal_strlit("priority, urgency, category, timestamp, expire_timeout, ");
    reveal_strlit("read, dismissed, close_reason");
    reveal_strlit(") VALUES (");
    reveal_strlit("?, ?, ?, ?, ?, ?, ?, ?, ?, ?, ?, ?, ?, ?");
    reveal_strlit(")");
}

/// An insertion binds every field of the notification under its own column; the
/// notification is not dismissed and has no reason.
pub proof fn insertion_binds_every_field(n: NotificationView)
    ensures
        ({
            let args = insert_of(n).args;
            &&& insert_of(n).sql == INSERT_SQL@
            &&& args.len() == 14
            &&& args[0] == SqlArg::Int(n.id as i64)
            &&& args[1] == SqlArg::Text(n.app_name)
            &&& args[2] == SqlArg::Text(n.summary)
            &&& args[3] == SqlArg::Text(n.body)
            &&& args[4] == SqlArg::Text(n.app_icon)
            &&& args[5] == SqlArg::Text(actions_json(n.actions))
            &&& args[6] == SqlArg::Text(priority_text(n.priority))
            &&& args[7] == SqlArg::Int(n.urgency as i64)
            &&& args[8] == SqlArg::Text(n.category)
            &&& args[9] == SqlArg::Text(n.timestamp)
            &&& args[10] == SqlArg::Int(n.expire_timeout as i64)
            &&& args[11] == SqlArg::Int(
                if n.read {
                    1
                } else {
                    0
                },
            )
            &&& args[12] == SqlArg::Int(0)
            &&& args[13] == SqlArg::Null
        }),
{
}

/// A row has every field of its notification under the same name.
pub proof fn row_has_every_field(n: NotificationView)
    ensures
        row_of(n).id == n.id,
        row_of(n).app_name == n.app_name,
        row_of(n).summary == n.summary,
        row_of(n).body == n.body,
        row_of(n).app_icon == n.app_icon,
        row_of(n).actions_json == actions_json(n.actions),
        text_priority(row_of(n).priority) == n.priority,
        row_of(n).urgency == n.urgency,
        row_of(n).category == n.category,
        row_of(n).timestamp == n.timestamp,
        row_of(n).expire_timeout == n.expire_timeout,
        row_of(n).read == n.read,
        !row_of(n).dismissed,
        row_of(n).close_reason is None,
{
    stored_priority_reads_back(n.priority);
}

/// A notification made of a row has every field of the row under the same name.
pub proof fn notification_of_row_has_every_field(row: RowView)
    ensures
        notification_of(row).id == row.id as u32,
        notification_of(row).app_name == row.app_name,
        notification_of(row).summary == row.summary,
        notification_of(row).body == row.body,
        notification_of(row).app_icon == row.app_icon,
        json_actions(row.actions_json) is Some ==> notification_of(row).actions == json_actions(
            row.actions_json,
        )->0,
        json_actions(row.actions_json) is None ==> notification_of(row).actions.len() == 0,
        notification_of(row).priority == text_priority(row.priority),
        notification_of(row).urgency == row.urgency as u8,
        notification_of(row).category == row.category,
        notification_of(row).timestamp == row.timestamp,
        notification_of(row).expire_timeout == row.expire_timeout as i32,
        notification_of(row).read == row.read,
{
}

/// A notification read from the database has every column of its row under the
/// same name.
pub proof fn stored_notification_has_every_column(row: StoredRow)
    ensures
        stored_notification(row).id == row.id as u32,
        stored_notification(row).app_name == row.app_name@,
        stored_notification(row).summary == row.summary@,
        stored_notification(row).body == row.body@,
        stored_notification(row).app_icon == row.app_icon@,
        json_actions(row.actions@) is Some ==> stored_notification(row).actions == json_actions(
            row.actions@,
        )->0,
        json_actions(row.actions@) is None ==> stored_notification(row).actions.len() == 0,
        stored_notification(row).priority == text_priority(row.priority@),
        stored_notification(row).urgency == row.urgency as u8,
        stored_notification(row).category == row.category@,
        stored_notification(row).timestamp == row.timestamp@,
        stored_notification(row).expire_timeout == row.expire_timeout as i32,
        stored_notification(row).read <==> row.read != 0,
{
}

/// A priority is stored under its own name in lower case, and a text stands for
/// a priority other than normal only if it is the name of that priority.
pub proof fn priorities_are_stored_by_name(text: Seq<char>)
    ensures
        priority_text(Priority::Low) == "low"@,
        priority_text(Priority::Normal) == "normal"@,
        priority_text(Priority::High) == "high"@,
        priority_text(Priority::Critical) == "critical"@,
        text_priority(text) != Priority::Normal ==> text == priority_text(text_priority(text)),
        text_priority("low"@) == Priority::Low,
        text_priority("high"@) == Priority::High,
        text_priority("critical"@) == Priority::Critical,
        text_priority("normal"@) == Priority::Normal,
{
    stored_priority_reads_back(Priority::Low);
    stored_priority_reads_back(Priority::Normal);
    stored_priority_reads_back(Priority::High);
    stored_priority_reads_back(Priority::Critical);
}

/// Stored actions are those of the text, or none where it cannot be read.
pub proof fn unreadable_actions_are_none(json: Seq<char>)
    ensures
        json_actions(json) is Some ==> stored_actions(json) == json_actions(json)->0,
        json_actions(json) is None ==> stored_actions(json).len() == 0,
{
}

/// A flag is 1 for yes and 0 for no, and an empty column is null.
pub proof fn flags_and_empty_columns(b: bool, n: i64)
    ensures
        flag(b) == 1 <==> b,
        flag(b) == 0 <==> !b,
        nullable(Some(n)) == SqlArg::Int(n),
        nullable(None) == SqlArg::Null,
{
}

/// The number of deleted rows is a sum: that of one statement is its own
/// number, and those of two lists together add up.
pub proof fn deletions_add_up(a: Seq<u64>, b: Seq<u64>, n: u64)
    ensures
        total(seq![n]) == n,
        total(a + b) == total(a) + total(b),
    decreases b.len(),
{
    assert(seq![n].drop_last() =~= Seq::<u64>::empty());
    assert(total(seq![n].drop_last()) == 0);
    if b.len() == 0 {
        assert(a + b =~= a);
    } else {
        deletions_add_up(a, b.drop_last(), n);
        assert((a + b).drop_last() =~= a + b.drop_last());
    }
}

} // verus!
