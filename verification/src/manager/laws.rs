//! What holds of every notification that passes through the manager.

use crate::clock::{days_before, rfc3339_text, Timestamp};
use crate::config::types::HistoryConfig;
use crate::config::Config;
use crate::dbus::server::{paired, priority_of, NotifyEventView, Priority};
use crate::dnd::laws::{blocks, has_own_rule, silences};
use crate::dnd::state::{EffectiveMode, SuppressResult};
use crate::manager::notification::{override_of, retention, IncomingView, ManagerView};
use crate::manager::rate_limiter::{is_recent, GLOBAL_LIMIT, PER_APP_LIMIT};
use crate::manager::validation::{
    byte_len, kept_actions, ordinary_input_is_unchanged, sanitized_input_keeps_limits, shown_body,
    shown_summary, truncated_is_longest_fitting_prefix, MAX_APP_NAME, MAX_BODY, MAX_ICON_LEN,
    MAX_SUMMARY,
};
use crate::storage::models::stored_priority_reads_back;
use crate::storage::sqlite::{
    cutoff_text, plain, SqlArg, StatementView, DELETE_ALL_SQL, DELETE_EXCESS_SQL, DELETE_OLD_SQL,
};
use crate::text::texts;
use vstd::prelude::*;

verus! {

/// A rate-limited notification gets the ID 0, is neither stored nor broadcast
/// nor queued, and changes nothing but what the rate limiter has forgotten.
pub proof fn rate_limited_leaves_no_trace(
    manager: ManagerView,
    incoming: IncomingView,
    tick: u64,
    timestamp: Seq<char>,
    mode: EffectiveMode,
)
    requires
        !manager.admits(incoming.sender(), tick),
    ensures
        manager.outcome(incoming, tick, timestamp, mode).id == 0,
        manager.outcome(incoming, tick, timestamp, mode).store is None,
        manager.outcome(incoming, tick, timestamp, mode).event is None,
        manager.after_notify(incoming, tick, timestamp, mode) == (ManagerView {
            limiter: manager.limiter.pruned(tick),
            ..manager
        }),
{
}

/// A notification that is let through keeps the ID it came with, whatever DND
/// makes of it.
pub proof fn admitted_keeps_its_id(
    manager: ManagerView,
    incoming: IncomingView,
    tick: u64,
    timestamp: Seq<char>,
    mode: EffectiveMode,
)
    requires
        manager.admits(incoming.sender(), tick),
    ensures
        manager.outcome(incoming, tick, timestamp, mode).id == incoming.id,
{
}

/// A dropped notification is neither stored nor broadcast nor queued.
pub proof fn dropped_leaves_no_trace(
    manager: ManagerView,
    incoming: IncomingView,
    tick: u64,
    timestamp: Seq<char>,
    mode: EffectiveMode,
)
    requires
        manager.verdict(incoming, timestamp, mode) == SuppressResult::Drop,
    ensures
        manager.outcome(incoming, tick, timestamp, mode).store is None,
        manager.outcome(incoming, tick, timestamp, mode).event is None,
        manager.after_notify(incoming, tick, timestamp, mode).queue == manager.queue,
{
}

/// A notification of a blocked app leaves no trace.
pub proof fn blocked_app_leaves_no_trace(
    manager: ManagerView,
    incoming: IncomingView,
    tick: u64,
    timestamp: Seq<char>,
    mode: EffectiveMode,
)
    requires
        blocks(override_of(&manager.config, incoming.sender())),
    ensures
        manager.outcome(incoming, tick, timestamp, mode).store is None,
        manager.outcome(incoming, tick, timestamp, mode).event is None,
        manager.after_notify(incoming, tick, timestamp, mode).queue == manager.queue,
{
}

/// A suppressed notification is stored, where the history is on, and not
/// shown, now or later.
pub proof fn suppressed_is_stored_silently(
    manager: ManagerView,
    incoming: IncomingView,
    tick: u64,
    timestamp: Seq<char>,
    mode: EffectiveMode,
)
    requires
        manager.admits(incoming.sender(), tick),
        manager.verdict(incoming, timestamp, mode) == SuppressResult::Suppress,
        manager.config.history.enabled,
    ensures
        manager.outcome(incoming, tick, timestamp, mode).store == Some(
            incoming.notification(manager.config, timestamp),
        ),
        manager.outcome(incoming, tick, timestamp, mode).event is None,
        manager.after_notify(incoming, tick, timestamp, mode).queue == manager.queue,
{
}

/// A queued notification is stored, where the history is on, and waits at the
/// end of the queue.
pub proof fn queued_waits(
    manager: ManagerView,
    incoming: IncomingView,
    tick: u64,
    timestamp: Seq<char>,
    mode: EffectiveMode,
)
    requires
        manager.admits(incoming.sender(), tick),
        manager.verdict(incoming, timestamp, mode) == SuppressResult::Queue,
        manager.config.history.enabled,
    ensures
        manager.outcome(incoming, tick, timestamp, mode).store == Some(
            incoming.notification(manager.config, timestamp),
        ),
        manager.outcome(incoming, tick, timestamp, mode).event is None,
        manager.after_notify(incoming, tick, timestamp, mode).queue == manager.queue.push(
            incoming.notification(manager.config, timestamp),
        ),
{
}

/// With the history off nothing is stored, and what DND allows is still shown.
pub proof fn history_off_stores_nothing(
    manager: ManagerView,
    incoming: IncomingView,
    tick: u64,
    timestamp: Seq<char>,
    mode: EffectiveMode,
)
    requires
        !manager.config.history.enabled,
    ensures
        manager.outcome(incoming, tick, timestamp, mode).store is None,
        manager.admits(incoming.sender(), tick) && manager.verdict(incoming, timestamp, mode)
            == SuppressResult::Allow ==> manager.outcome(incoming, tick, timestamp, mode).event
            == Some(NotifyEventView::Added(incoming.notification(manager.config, timestamp))),
{
}

/// What is stored and what is shown of a notification is the same.
pub proof fn stored_is_what_is_shown(
    manager: ManagerView,
    incoming: IncomingView,
    tick: u64,
    timestamp: Seq<char>,
    mode: EffectiveMode,
)
    ensures
        ({
            let outcome = manager.outcome(incoming, tick, timestamp, mode);
            outcome.store is Some && outcome.event is Some ==> outcome.event == Some(
                NotifyEventView::Added(outcome.store->0),
            )
        }),
{
}

/// A critical notification of an app without a rule of its own, let through by
/// the rate limiter, is shown under DND off and under priority mode.
pub proof fn critical_is_shown(
    manager: ManagerView,
    incoming: IncomingView,
    tick: u64,
    timestamp: Seq<char>,
    mode: EffectiveMode,
)
    requires
        manager.admits(incoming.sender(), tick),
        incoming.notification(manager.config, timestamp).priority == Priority::Critical,
        !has_own_rule(
            incoming.sender(),
            manager.config.dnd,
            override_of(&manager.config, incoming.sender()),
        ),
        mode == EffectiveMode::Off || mode == EffectiveMode::Priority,
    ensures
        manager.outcome(incoming, tick, timestamp, mode).event == Some(
            NotifyEventView::Added(incoming.notification(manager.config, timestamp)),
        ),
{
}

/// Every notification that is made of an input keeps to the limits of its
/// fields, and has at most three actions.
pub proof fn notification_keeps_limits(
    manager: ManagerView,
    incoming: IncomingView,
    timestamp: Seq<char>,
)
    ensures
        ({
            let n = incoming.notification(manager.config, timestamp);
            &&& byte_len(n.app_name) <= MAX_APP_NAME
            &&& byte_len(n.summary) <= MAX_SUMMARY
            &&& byte_len(n.body) <= MAX_BODY
            &&& byte_len(n.app_icon) <= MAX_ICON_LEN
            &&& n.actions.len() <= 3
            &&& !n.read
        }),
{
    sanitized_input_keeps_limits(
        incoming.app_name,
        incoming.summary,
        incoming.body,
        incoming.app_icon,
        incoming.actions,
    );
}

/// Handling a notification leaves the configuration, the focus session and the
/// fullscreen state alone.
pub proof fn notify_keeps_settings(
    manager: ManagerView,
    incoming: IncomingView,
    tick: u64,
    timestamp: Seq<char>,
    mode: EffectiveMode,
)
    ensures
        ({
            let after = manager.after_notify(incoming, tick, timestamp, mode);
            &&& after.config == manager.config
            &&& after.dnd == manager.dnd
            &&& after.limiter == manager.limiter.after(
                incoming.sender(),
                tick,
                PER_APP_LIMIT as nat,
                GLOBAL_LIMIT as nat,
            )
        }),
{
}

/// What is shown when fullscreen ends is the beginning of the queue: all of it
/// up to five notifications, the first five of a longer one.
pub proof fn flush_shows_the_oldest(manager: ManagerView)
    ensures
        manager.flushed().is_prefix_of(manager.queue),
        manager.flushed().len() == (if manager.queue.len() <= 5 {
            manager.queue.len()
        } else {
            5
        }),
{
    assert(manager.flushed() =~= manager.queue.subrange(0, manager.flushed().len() as int));
}

/// With the history off, a cleanup deletes everything.
pub proof fn history_off_wipes(history: HistoryConfig, now: Timestamp)
    requires
        !history.enabled,
    ensures
        retention(history, now) == seq![plain(DELETE_ALL_SQL@)],
{
}

/// Without limits, a cleanup deletes nothing.
pub proof fn no_limits_delete_nothing(history: HistoryConfig, now: Timestamp)
    requires
        history.enabled,
        history.max_age_days == 0,
        history.max_count == 0,
    ensures
        retention(history, now) == Seq::<StatementView>::empty(),
{
    assert(retention(history, now) =~= Seq::<StatementView>::empty());
}

/// A notification that DND allows is shown at once, is stored where the history
/// is on, and does not wait.
pub proof fn allowed_is_shown_and_stored(
    manager: ManagerView,
    incoming: IncomingView,
    tick: u64,
    timestamp: Seq<char>,
    mode: EffectiveMode,
)
    requires
        manager.admits(incoming.sender(), tick),
        manager.verdict(incoming, timestamp, mode) == SuppressResult::Allow,
    ensures
        manager.outcome(incoming, tick, timestamp, mode).event == Some(
            NotifyEventView::Added(incoming.notification(manager.config, timestamp)),
        ),
        manager.outcome(incoming, tick, timestamp, mode).store is Some
            <==> manager.config.history.enabled,
        manager.outcome(incoming, tick, timestamp, mode).store matches Some(n) ==> n
            == incoming.notification(manager.config, timestamp),
        manager.after_notify(incoming, tick, timestamp, mode).queue == manager.queue,
{
}

/// A notification is shown only if it was let through and allowed, and waits
/// only if it was let through and queued.
pub proof fn shown_is_allowed_and_waiting_is_queued(
    manager: ManagerView,
    incoming: IncomingView,
    tick: u64,
    timestamp: Seq<char>,
    mode: EffectiveMode,
)
    ensures
        manager.outcome(incoming, tick, timestamp, mode).event is Some <==> manager.admits(
            incoming.sender(),
            tick,
        ) && manager.verdict(incoming, timestamp, mode) == SuppressResult::Allow,
        manager.outcome(incoming, tick, timestamp, mode).store is Some <==> manager.admits(
            incoming.sender(),
            tick,
        ) && manager.config.history.enabled && manager.verdict(incoming, timestamp, mode)
            != SuppressResult::Drop,
        manager.after_notify(incoming, tick, timestamp, mode).queue != manager.queue
            <==> manager.admits(incoming.sender(), tick) && manager.verdict(
            incoming,
            timestamp,
            mode,
        ) == SuppressResult::Queue,
{
    let n = incoming.notification(manager.config, timestamp);
    assert(manager.queue.push(n).len() != manager.queue.len());
}

/// With DND off, no focus session and no fullscreen window, every notification
/// that the rate limiter lets through is shown, whatever its priority, unless
/// its app is blocked or silenced.
pub proof fn quiet_desktop_shows_everything(
    manager: ManagerView,
    incoming: IncomingView,
    tick: u64,
    timestamp: Seq<char>,
    mode: EffectiveMode,
)
    requires
        manager.admits(incoming.sender(), tick),
        mode == EffectiveMode::Off,
        manager.dnd.focus.project is None,
        !manager.dnd.fullscreen_active,
        !blocks(override_of(&manager.config, incoming.sender())),
        !silences(override_of(&manager.config, incoming.sender())),
        !texts(manager.config.dnd.always_suppress@).contains(incoming.sender()),
    ensures
        manager.outcome(incoming, tick, timestamp, mode).event == Some(
            NotifyEventView::Added(incoming.notification(manager.config, timestamp)),
        ),
{
}

/// DND decides on the notification that is stored and shown, by the settings of
/// its sender.
pub proof fn verdict_is_on_the_notification_and_its_sender(
    manager: ManagerView,
    incoming: IncomingView,
    timestamp: Seq<char>,
    mode: EffectiveMode,
)
    ensures
        ({
            let n = incoming.notification(manager.config, timestamp);
            let known = manager.config.apps@.contains_key(n.app_name);
            &&& n.app_name == incoming.sender()
            &&& known ==> manager.verdict(incoming, timestamp, mode) == manager.dnd.decision(
                n,
                manager.config.dnd,
                Some(&manager.config.apps@[n.app_name]),
                mode,
            )
            &&& !known ==> manager.verdict(incoming, timestamp, mode) == manager.dnd.decision(
                n,
                manager.config.dnd,
                None,
                mode,
            )
        }),
{
}

/// The mode that clients are told becomes the configured one with every
/// notification that is let through, and stays with one that is not.
pub proof fn told_mode_follows_the_configuration(
    manager: ManagerView,
    incoming: IncomingView,
    tick: u64,
    timestamp: Seq<char>,
    mode: EffectiveMode,
)
    ensures
        manager.after_notify(incoming, tick, timestamp, mode).dnd_mode == (if manager.admits(
            incoming.sender(),
            tick,
        ) {
            manager.config.dnd.mode
        } else {
            manager.dnd_mode
        }),
{
}

/// The rate limiter lets a sender through with fewer than ten notifications of
/// its own, and fewer than fifty of all senders, within the last second.
pub proof fn ten_per_sender_and_fifty_in_all(manager: ManagerView, sender: Seq<char>, tick: u64)
    ensures
        manager.admits(sender, tick) <==> manager.limiter.apps[sender].filter(
            |t: u64| t + 1_000_000_000 > tick,
        ).len() < 10 && manager.limiter.global.filter(
            |t: u64| t + 1_000_000_000 > tick,
        ).len() < 50,
{
    assert(is_recent(tick) =~= (|t: u64| t + 1_000_000_000 > tick));
}

/// A notification within all limits, without markup, is made of its input as it
/// is: every field under the same name, its actions as pairs, and not yet read.
pub proof fn ordinary_notification_keeps_every_field(
    config: Config,
    incoming: IncomingView,
    timestamp: Seq<char>,
)
    requires
        byte_len(incoming.app_name) <= 50,
        0 < incoming.summary.len(),
        byte_len(incoming.summary) <= 100,
        !incoming.summary.contains('<') && !incoming.summary.contains('&'),
        byte_len(incoming.body) <= 65_536,
        !incoming.body.contains('<') && !incoming.body.contains('&'),
        byte_len(incoming.app_icon) <= 1_048_576,
        incoming.actions.len() <= 6 && incoming.actions.len() % 2 == 0,
    ensures
        ({
            let n = incoming.notification(config, timestamp);
            &&& n.id == incoming.id
            &&& n.app_name == incoming.app_name
            &&& n.summary == incoming.summary
            &&& n.body == incoming.body
            &&& n.app_icon == incoming.app_icon
            &&& n.actions == paired(incoming.actions)
            &&& n.urgency == incoming.urgency
            &&& n.category == incoming.category
            &&& n.timestamp == timestamp
            &&& n.expire_timeout == incoming.expire_timeout
            &&& !n.read
        }),
{
    ordinary_input_is_unchanged(
        incoming.app_name,
        incoming.summary,
        incoming.body,
        incoming.app_icon,
        incoming.actions,
    );
}

/// Whatever the texts are, a notification keeps the ID, the hints and the time
/// that it came with.
pub proof fn notification_keeps_id_hints_and_time(
    config: Config,
    incoming: IncomingView,
    timestamp: Seq<char>,
)
    ensures
        ({
            let n = incoming.notification(config, timestamp);
            &&& n.id == incoming.id
            &&& n.app_name.is_prefix_of(incoming.app_name)
            &&& n.app_icon.is_prefix_of(incoming.app_icon)
            &&& n.urgency == incoming.urgency
            &&& n.category == incoming.category
            &&& n.timestamp == timestamp
            &&& n.expire_timeout == incoming.expire_timeout
            &&& !n.read
            &&& n.summary == shown_summary(incoming.app_name, incoming.summary)
            &&& n.body == shown_body(incoming.body)
            &&& n.actions == paired(kept_actions(incoming.actions))
        }),
{
    truncated_is_longest_fitting_prefix(incoming.app_name, MAX_APP_NAME as nat);
    truncated_is_longest_fitting_prefix(incoming.app_icon, MAX_ICON_LEN as nat);
}

/// The priority of a notification is the one that the override of its sender
/// names, and otherwise the one that its hints give.
pub proof fn override_names_the_priority(
    config: Config,
    incoming: IncomingView,
    timestamp: Seq<char>,
)
    ensures
        ({
            let priority = incoming.notification(config, timestamp).priority;
            let given = if config.apps@.contains_key(incoming.sender()) {
                config.apps@[incoming.sender()].priority
            } else {
                None
            };
            &&& given is Some && given->0@ == "low"@ ==> priority == Priority::Low
            &&& given is Some && given->0@ == "normal"@ ==> priority == Priority::Normal
            &&& given is Some && given->0@ == "high"@ ==> priority == Priority::High
            &&& given is Some && given->0@ == "critical"@ ==> priority == Priority::Critical
            &&& (given is None || given->0@ != "low"@ && given->0@ != "normal"@ && given->0@
                != "high"@ && given->0@ != "critical"@) ==> priority == priority_of(
                incoming.urgency,
                incoming.expire_timeout,
                incoming.category,
            )
        }),
{
    stored_priority_reads_back(Priority::Low);
    stored_priority_reads_back(Priority::Normal);
    stored_priority_reads_back(Priority::High);
    stored_priority_reads_back(Priority::Critical);
}

/// With the history on, a cleanup has a statement for the age limit exactly if
/// there is one, and a statement for the count limit exactly if there is one;
/// they bind the cutoff of the age limit, and the count limit.
pub proof fn cleanup_enforces_the_limits(history: HistoryConfig, now: Timestamp)
    requires
        history.enabled,
        history.max_age_days > 0 ==> cutoff_text(now, history.max_age_days) is Some,
    ensures
        ({
            let all = retention(history, now);
            let by_age = if history.max_age_days > 0 {
                1int
            } else {
                0
            };
            let by_count = if history.max_count > 0 {
                1int
            } else {
                0
            };
            &&& all.len() == by_age + by_count
            &&& history.max_age_days > 0 ==> all[0].sql == DELETE_OLD_SQL@ && all[0].args == seq![
                SqlArg::Text(cutoff_text(now, history.max_age_days)->0),
            ]
            &&& history.max_count > 0 ==> all.last().sql == DELETE_EXCESS_SQL@ && all.last().args
                == seq![SqlArg::Int(history.max_count as i64)]
        }),
{
}

/// The cutoff of an age limit is the printed time so many days before.
pub proof fn cutoff_is_printed(now: Timestamp, max_age_days: u32, secs: i64, nanos: u32)
    requires
        days_before(now.secs, now.nanos, max_age_days) == Some((secs, nanos)),
    ensures
        cutoff_text(now, max_age_days) == rfc3339_text(secs, nanos),
{
}

} // verus!
