//! Central notification manager.
//!
//! Coordinates between D-Bus input, DND evaluation, rate limiting, storage and
//! client broadcasting. The manager decides; its caller runs the statements
//! and sends the events that come out of each decision.

use crate::clock::{
    local_reading, print_rfc3339, read_local_clock, read_utc_clock, rfc3339_text, utc_reading,
    LocalTime, Timestamp,
};
use crate::config::types::HistoryConfig;
use crate::config::{AppOverride, Config, DndMode};
use crate::dbus::server::{
    determine_priority, paired, parse_actions, priority_of, CloseReason, Notification,
    NotificationView, NotifyEvent, NotifyEventView, Priority,
};
use crate::dnd::focus::FocusView;
use crate::dnd::state::{
    effective_mode_at, mode_at, DndState, DndView, EffectiveMode, SuppressResult,
};
use crate::manager::rate_limiter::{
    started, ticked, LimiterView, RateLimiter, GLOBAL_LIMIT, PER_APP_LIMIT,
};
use crate::manager::validation::{
    kept_actions, sanitize_input, shown_body, shown_summary, truncated, SanitizedInput,
    MAX_APP_NAME, MAX_ICON_LEN,
};
use crate::storage::models::{priority_from_str, text_priority};
use crate::storage::sqlite::{
    age_limit_in_range, cleanup_of, cutoff_text, dismissal_of, plain, statements, Database,
    Statement, StatementView, DELETE_ALL_SQL,
};
use crate::text::{str_eq, texts};
use std::time::Instant;
use vstd::prelude::*;

verus! {

/// Queued notifications that are shown when fullscreen ends.
pub const MAX_FLUSHED: usize = 5;

/// The largest age limit in days that lies in the range of dates at any time
/// since 1970.
pub const MAX_AGE_DAYS: u32 = 96_465_292;

/// A notification as it comes in.
#[derive(Debug)]
pub struct Incoming<'a> {
    /// The ID that the notification gets.
    pub id: u32,
    pub app_name: &'a str,
    pub app_icon: &'a str,
    pub summary: &'a str,
    pub body: &'a str,
    /// Flat list of alternating action keys and labels.
    pub actions: &'a [String],
    pub urgency: u8,
    pub category: &'a str,
    pub expire_timeout: i32,
}

/// The content of an [`Incoming`] notification.
pub struct IncomingView {
    pub id: u32,
    pub app_name: Seq<char>,
    pub app_icon: Seq<char>,
    pub summary: Seq<char>,
    pub body: Seq<char>,
    pub actions: Seq<Seq<char>>,
    pub urgency: u8,
    pub category: Seq<char>,
    pub expire_timeout: i32,
}

impl<'a> View for Incoming<'a> {
    type V = IncomingView;

    open spec fn view(&self) -> IncomingView {
        IncomingView {
            id: self.id,
            app_name: self.app_name@,
            app_icon: self.app_icon@,
            summary: self.summary@,
            body: self.body@,
            actions: texts(self.actions@),
            urgency: self.urgency,
            category: self.category@,
            expire_timeout: self.expire_timeout,
        }
    }
}

/// What is to be done about an incoming notification.
#[derive(Debug)]
pub struct NotifyOutcome {
    /// The ID of the notification, or 0 if it was rate-limited.
    pub id: u32,
    /// The notification to store, if it is to be stored.
    pub store: Option<Notification>,
    /// The event to broadcast, if there is one.
    pub event: Option<NotifyEvent>,
}

/// The content of a [`NotifyOutcome`].
pub struct OutcomeView {
    pub id: u32,
    pub store: Option<NotificationView>,
    pub event: Option<NotifyEventView>,
}

impl View for NotifyOutcome {
    type V = OutcomeView;

    open spec fn view(&self) -> OutcomeView {
        OutcomeView {
            id: self.id,
            store: match self.store {
                Some(n) => Some(n@),
                None => None,
            },
            event: match self.event {
                Some(e) => Some(e@),
                None => None,
            },
        }
    }
}

/// The contents of a list of events.
pub open spec fn events(list: Seq<NotifyEvent>) -> Seq<NotifyEventView> {
    list.map_values(|e: NotifyEvent| e@)
}

/// Whether a text is the name of a priority.
pub open spec fn names_priority(text: Seq<char>) -> bool {
    text == "low"@ || text == "normal"@ || text == "high"@ || text == "critical"@
}

/// The priority of an app's notification: the one that its override names, or
/// else the one determined from the notification.
pub open spec fn overridden_priority(
    app_override: Option<&AppOverride>,
    determined: Priority,
) -> Priority {
    match app_override {
        Some(ovr) => match ovr.priority {
            Some(p) => if names_priority(p@) {
                text_priority(p@)
            } else {
                determined
            },
            None => determined,
        },
        None => determined,
    }
}

/// The priority of an app's notification.
pub fn override_priority(app_override: Option<&AppOverride>, determined: Priority) -> (r: Priority)
    ensures
        r == overridden_priority(app_override, determined),
{
    if let Some(ovr) = app_override {
        if let Some(p) = &ovr.priority {
            let text: &str = p.as_str();
            if str_eq(text, "low") || str_eq(text, "normal") || str_eq(text, "high") || str_eq(
                text,
                "critical",
            ) {
                return priority_from_str(text);
            }
        }
    }
    determined
}

/// The override of an app, if it has one.
pub open spec fn override_of(config: &Config, app_name: Seq<char>) -> Option<&AppOverride> {
    if config.apps@.contains_key(app_name) {
        Some(&config.apps@[app_name])
    } else {
        None
    }
}

impl IncomingView {
    /// The name under which the app is known: its name, cut to the limit.
    pub open spec fn sender(self) -> Seq<char> {
        truncated(self.app_name, MAX_APP_NAME as nat)
    }

    /// The notification made of the input: sanitized, prioritized, unread.
    pub open spec fn notification(self, config: Config, timestamp: Seq<char>) -> NotificationView {
        NotificationView {
            id: self.id,
            app_name: self.sender(),
            summary: shown_summary(self.app_name, self.summary),
            body: shown_body(self.body),
            app_icon: truncated(self.app_icon, MAX_ICON_LEN as nat),
            actions: paired(kept_actions(self.actions)),
            priority: overridden_priority(
                override_of(&config, self.sender()),
                priority_of(self.urgency, self.expire_timeout, self.category),
            ),
            urgency: self.urgency,
            category: self.category,
            timestamp,
            expire_timeout: self.expire_timeout,
            read: false,
        }
    }
}

/// The content of a [`NotificationManager`].
pub struct ManagerView {
    pub dnd: DndView,
    pub dnd_mode: DndMode,
    pub config: Config,
    pub limiter: LimiterView,
    /// Queued notifications waiting for fullscreen exit.
    pub queue: Seq<NotificationView>,
}

impl ManagerView {
    /// Whether the rate limiter lets an app through at a time on its clock.
    pub open spec fn admits(self, sender: Seq<char>, tick: u64) -> bool {
        self.limiter.admits(sender, tick, PER_APP_LIMIT as nat, GLOBAL_LIMIT as nat)
    }

    /// What DND makes of an incoming notification.
    pub open spec fn verdict(
        self,
        incoming: IncomingView,
        timestamp: Seq<char>,
        mode: EffectiveMode,
    ) -> SuppressResult {
        self.dnd.decision(
            incoming.notification(self.config, timestamp),
            self.config.dnd,
            override_of(&self.config, incoming.sender()),
            mode,
        )
    }

    /// The manager after an incoming notification: the rate limiter has
    /// counted it; where it was let through, the mode is the configured one
    /// and the notification is queued if DND says so.
    pub open spec fn after_notify(
        self,
        incoming: IncomingView,
        tick: u64,
        timestamp: Seq<char>,
        mode: EffectiveMode,
    ) -> ManagerView {
        let limiter = self.limiter.after(
            incoming.sender(),
            tick,
            PER_APP_LIMIT as nat,
            GLOBAL_LIMIT as nat,
        );
        if !self.admits(incoming.sender(), tick) {
            ManagerView { limiter, ..self }
        } else {
            ManagerView {
                limiter,
                dnd_mode: self.config.dnd.mode,
                queue: if self.verdict(incoming, timestamp, mode) == SuppressResult::Queue {
                    self.queue.push(incoming.notification(self.config, timestamp))
                } else {
                    self.queue
                },
                ..self
            }
        }
    }

    /// What is to be done about an incoming notification: nothing if it is
    /// rate-limited; otherwise it is stored unless it is dropped or the history
    /// is off, and broadcast if DND allows it.
    pub open spec fn outcome(
        self,
        incoming: IncomingView,
        tick: u64,
        timestamp: Seq<char>,
        mode: EffectiveMode,
    ) -> OutcomeView {
        let n = incoming.notification(self.config, timestamp);
        let verdict = self.verdict(incoming, timestamp, mode);
        if !self.admits(incoming.sender(), tick) {
            OutcomeView { id: 0, store: None, event: None }
        } else {
            OutcomeView {
                id: incoming.id,
                store: if self.config.history.enabled && verdict != SuppressResult::Drop {
                    Some(n)
                } else {
                    None
                },
                event: if verdict == SuppressResult::Allow {
                    Some(NotifyEventView::Added(n))
                } else {
                    None
                },
            }
        }
    }

    /// The notifications of the queue that are shown when fullscreen ends.
    pub open spec fn flushed(self) -> Seq<NotificationView> {
        if self.queue.len() <= MAX_FLUSHED {
            self.queue
        } else {
            self.queue.take(MAX_FLUSHED as int)
        }
    }
}

/// Central coordinator for the notification daemon.
#[derive(Debug)]
pub struct NotificationManager {
    dnd_state: DndState,
    dnd_mode: DndMode,
    config: Config,
    rate_limiter: RateLimiter,
    fullscreen_queue: Vec<Notification>,
}

/// The contents of a list of notifications.
pub open spec fn contents(list: Seq<Notification>) -> Seq<NotificationView> {
    list.map_values(|n: Notification| n@)
}

impl View for NotificationManager {
    type V = ManagerView;

    closed spec fn view(&self) -> ManagerView {
        ManagerView {
            dnd: self.dnd_state@,
            dnd_mode: self.dnd_mode,
            config: self.config,
            limiter: self.rate_limiter@,
            queue: contents(self.fullscreen_queue@),
        }
    }
}

/// Readings of the clocks: the time elapsed since `clock`, the UTC time, and
/// the local time.
pub open spec fn is_reading(clock: Instant, tick: u64, now: Timestamp, local: LocalTime) -> bool {
    ticked(clock, tick) && utc_reading(now) && local_reading(local)
}

/// The statements that enforce the retention settings: everything is wiped
/// where the history is off; otherwise the age and count limits apply.
pub open spec fn retention(history: HistoryConfig, now: Timestamp) -> Seq<StatementView> {
    if !history.enabled {
        seq![plain(DELETE_ALL_SQL@)]
    } else {
        cleanup_of(
            if history.max_age_days > 0 {
                cutoff_text(now, history.max_age_days)
            } else {
                None
            },
            history.max_count,
        )
    }
}

impl NotificationManager {
    /// Create a new notification manager.
    pub fn new(config: Config) -> (r: Self)
        ensures
            r@ == (ManagerView {
                dnd: DndView { fullscreen_active: false, focus: FocusView::inactive() },
                dnd_mode: DndMode::Off,
                config,
                limiter: LimiterView::empty(r@.limiter.clock),
                queue: Seq::empty(),
            }),
            started(r@.limiter.clock),
    {
        let r = NotificationManager {
            dnd_state: DndState::default(),
            dnd_mode: DndMode::Off,
            config,
            rate_limiter: RateLimiter::new(),
            fullscreen_queue: Vec::new(),
        };
        assert(r@.queue =~= Seq::empty());
        r
    }

    /// The DND mode that shell clients are told.
    pub fn dnd_mode(&self) -> (r: DndMode)
        ensures
            r == self@.dnd_mode,
    {
        self.dnd_mode
    }

    /// Set the DND mode that shell clients are told.
    pub fn set_dnd_mode(&mut self, mode: DndMode)
        ensures
            final(self)@ == (ManagerView { dnd_mode: mode, ..old(self)@ }),
    {
        self.dnd_mode = mode;
    }

    /// Replace the configuration, after a reload.
    pub fn set_config(&mut self, config: Config)
        ensures
            final(self)@ == (ManagerView { config, ..old(self)@ }),
    {
        self.config = config;
    }

    /// Handle an incoming notification, given a time on the rate limiter's
    /// clock in nanoseconds, the timestamp that the notification gets, and the
    /// effective DND mode.
    pub fn handle_notify_at(
        &mut self,
        incoming: &Incoming<'_>,
        tick: u64,
        timestamp: String,
        mode: EffectiveMode,
    ) -> (r: NotifyOutcome)
        ensures
            final(self)@ == old(self)@.after_notify(incoming@, tick, timestamp@, mode),
            r@ == old(self)@.outcome(incoming@, tick, timestamp@, mode),
    {
        // 1. Validate/sanitize input.
        let input: SanitizedInput = sanitize_input(
            incoming.app_name,
            incoming.summary,
            incoming.body,
            incoming.app_icon,
            incoming.actions,
        );

        // 2. Rate limit.
        if !self.rate_limiter.check_at(input.app_name.as_str(), tick) {
            return NotifyOutcome { id: 0, store: None, event: None };
        }

        // 3. Determine priority.
        let app_override: Option<&AppOverride> = self.config.apps.get(input.app_name.as_str());
        assert(app_override == override_of(&self.config, input.app_name@));
        let determined: Priority = determine_priority(
            incoming.urgency,
            incoming.expire_timeout,
            incoming.category,
        );
        let priority: Priority = override_priority(app_override, determined);

        // 4. Build notification.
        let notification: Notification = Notification {
            id: incoming.id,
            app_name: input.app_name.clone(),
            summary: input.summary,
            body: input.body,
            app_icon: input.app_icon,
            actions: parse_actions(input.actions.as_slice()),
            priority,
            urgency: incoming.urgency,
            category: incoming.category.to_string(),
            timestamp,
            expire_timeout: incoming.expire_timeout,
            read: false,
        };
        let ghost n = notification@;

        // 5. Evaluate DND/app rules BEFORE storage, so that `enabled = false`
        // and `DndMode::Total` can cleanly drop the notification.
        self.dnd_mode = self.config.dnd.mode;
        let result: SuppressResult = self.dnd_state.decide(
            &notification,
            &self.config.dnd,
            app_override,
            mode,
        );

        // 6. Persist unless Drop, OR history is disabled entirely.
        let store: Option<Notification> = if self.config.history.enabled && result
            != SuppressResult::Drop {
            Some(notification.clone())
        } else {
            None
        };

        // 7. Act on result.
        let mut event: Option<NotifyEvent> = None;
        match result {
            SuppressResult::Allow => {
                event = Some(NotifyEvent::Added(notification));
            },
            SuppressResult::Queue => {
                let ghost before = self.fullscreen_queue@;
                self.fullscreen_queue.push(notification);
                assert(contents(self.fullscreen_queue@) =~= contents(before).push(n));
            },
            SuppressResult::Suppress => {},
            SuppressResult::Drop => {},
        }
        NotifyOutcome { id: incoming.id, store, event }
    }

    /// Handle an incoming notification from D-Bus, now.
    ///
    /// The outcome holds the notification ID, or 0 if rate-limited.
    pub fn handle_notify(
        &mut self,
        id: u32,
        app_name: &str,
        app_icon: &str,
        summary: &str,
        body: &str,
        actions: &[String],
        urgency: u8,
        category: &str,
        expire_timeout: i32,
    ) -> (r: NotifyOutcome)
        ensures
            exists|tick: u64, now: Timestamp, local: LocalTime|
                #[trigger] is_reading(old(self)@.limiter.clock, tick, now, local) && ({
                    let incoming = IncomingView {
                        id,
                        app_name: app_name@,
                        app_icon: app_icon@,
                        summary: summary@,
                        body: body@,
                        actions: texts(actions@),
                        urgency,
                        category: category@,
                        expire_timeout,
                    };
                    let timestamp = rfc3339_text(now.secs, now.nanos)->0;
                    let mode = mode_at(old(self)@.config.dnd, now, local);
                    &&& final(self)@ == old(self)@.after_notify(incoming, tick, timestamp, mode)
                    &&& r@ == old(self)@.outcome(incoming, tick, timestamp, mode)
                }),
    {
        let incoming: Incoming<'_> = Incoming {
            id,
            app_name,
            app_icon,
            summary,
            body,
            actions,
            urgency,
            category,
            expire_timeout,
        };
        let tick: u64 = self.rate_limiter.now();
        let now: Timestamp = read_utc_clock();
        let local: LocalTime = read_local_clock();
        let timestamp: String = match print_rfc3339(now.secs, now.nanos) {
            Some(text) => text,
            None => String::new(),
        };
        let mode: EffectiveMode = effective_mode_at(&self.config.dnd, now, local);
        assert(is_reading(self@.limiter.clock, tick, now, local));
        self.handle_notify_at(&incoming, tick, timestamp, mode)
    }

    /// Handle closing a notification: the statement to run and the event to
    /// broadcast.
    pub fn handle_close(&self, id: u32, reason: CloseReason) -> (r: (Statement, NotifyEvent))
        ensures
            r.0@ == dismissal_of(id, reason),
            r.1@ == (NotifyEventView::Closed { id, reason }),
    {
        (Database::dismiss(id, reason), NotifyEvent::Closed { id, reason })
    }

    /// Set fullscreen state. Flushes the queue on exit: the result holds the
    /// events to broadcast.
    pub fn set_fullscreen(&mut self, active: bool) -> (r: Vec<NotifyEvent>)
        ensures
            final(self)@ == (ManagerView {
                dnd: DndView { fullscreen_active: active, ..old(self)@.dnd },
                queue: if active {
                    old(self)@.queue
                } else {
                    Seq::empty()
                },
                ..old(self)@
            }),
            events(r@) == (if active {
                Seq::empty()
            } else {
                old(self)@.flushed().map_values(|n: NotificationView| NotifyEventView::Added(n))
            }),
    {
        self.dnd_state.fullscreen_active = active;
        if active {
            let none: Vec<NotifyEvent> = Vec::new();
            assert(events(none@) =~= Seq::empty());
            return none;
        }
        self.flush_fullscreen_queue()
    }

    /// Flush queued notifications (max 5, for fullscreen exit).
    fn flush_fullscreen_queue(&mut self) -> (r: Vec<NotifyEvent>)
        ensures
            final(self)@ == (ManagerView { queue: Seq::empty(), ..old(self)@ }),
            events(r@) == old(self)@.flushed().map_values(
                |n: NotificationView| NotifyEventView::Added(n),
            ),
    {
        let ghost queue = self.fullscreen_queue@;
        let count: usize = if self.fullscreen_queue.len() <= MAX_FLUSHED {
            self.fullscreen_queue.len()
        } else {
            MAX_FLUSHED
        };
        let mut out: Vec<NotifyEvent> = Vec::new();
        let mut i: usize = 0;
        while i < count
            invariant
                i <= count <= queue.len(),
                self.fullscreen_queue@ == queue,
                out@.len() == i,
                forall|j: int|
                    0 <= j < i ==> (#[trigger] out@[j])@ == NotifyEventView::Added(queue[j]@),
            decreases count - i,
        {
            out.push(NotifyEvent::Added(self.fullscreen_queue[i].clone()));
            i += 1;
        }
        assert(events(out@) =~= old(self)@.flushed().map_values(
            |n: NotificationView| NotifyEventView::Added(n),
        ));
        self.fullscreen_queue = Vec::new();
        assert(contents(self.fullscreen_queue@) =~= Seq::empty());
        out
    }

    /// Activate focus mode for a project.
    pub fn activate_focus(&mut self, project_id: String, suppress_apps: Vec<String>)
        ensures
            final(self)@ == (ManagerView {
                dnd: DndView {
                    focus: FocusView::on(project_id@, texts(suppress_apps@)),
                    ..old(self)@.dnd
                },
                ..old(self)@
            }),
    {
        self.dnd_state.focus.activate(project_id, suppress_apps);
    }

    /// Deactivate focus mode.
    pub fn deactivate_focus(&mut self)
        ensures
            final(self)@ == (ManagerView {
                dnd: DndView { focus: FocusView::inactive(), ..old(self)@.dnd },
                ..old(self)@
            }),
    {
        self.dnd_state.focus.deactivate();
    }

    /// The unread count, given the number of notifications that are neither
    /// dismissed nor read, as the database reports it to
    /// [`Database::count_unread`]; 0 if it reports none.
    pub fn unread_count(&self, unread: Option<i64>) -> (r: u32)
        ensures
            r == (match unread {
                Some(n) => n as u32,
                None => 0,
            }),
    {
        match unread {
            Some(n) => n as u32,
            None => 0,
        }
    }

    /// The statements of a retention cleanup at a given time.
    ///
    /// When `history.enabled = false` the database is wiped, so that nothing
    /// ever accumulates. Otherwise the configured age/count limits are
    /// enforced; there is no result where the age limit lies outside the range
    /// of dates.
    pub fn cleanup_at(&self, now: Timestamp) -> (r: Option<Vec<Statement>>)
        ensures
            r is None <==> self@.config.history.enabled && self@.config.history.max_age_days > 0
                && cutoff_text(now, self@.config.history.max_age_days) is None,
            now.nanos < 1_000_000_000 ==> r is Some == (!self@.config.history.enabled
                || age_limit_in_range(now, self@.config.history.max_age_days)),
            r matches Some(list) ==> statements(list@) == retention(self@.config.history, now),
            r is Some && self@.config.history.enabled && self@.config.history.max_age_days > 0
                && now.nanos < 1_000_000_000 ==> cutoff_text(
                now,
                self@.config.history.max_age_days,
            ) == rfc3339_text(
                (now.secs - 86400 * self@.config.history.max_age_days) as i64,
                now.nanos,
            ),
    {
        if !self.config.history.enabled {
            let mut out: Vec<Statement> = Vec::new();
            out.push(Database::wipe());
            assert(statements(out@) =~= seq![plain(DELETE_ALL_SQL@)]);
            return Some(out);
        }
        Database::cleanup(now, self.config.history.max_age_days, self.config.history.max_count)
    }

    /// The statements of a retention cleanup now. There are some for every age
    /// limit up to [`MAX_AGE_DAYS`].
    pub fn cleanup(&self) -> (r: Option<Vec<Statement>>)
        ensures
            exists|now: Timestamp| #[trigger]
                utc_reading(now) && ({
                    &&& r is Some == (!self@.config.history.enabled || age_limit_in_range(
                        now,
                        self@.config.history.max_age_days,
                    ))
                    &&& r matches Some(list) ==> statements(list@) == retention(
                        self@.config.history,
                        now,
                    )
                    &&& r is Some && self@.config.history.enabled
                        && self@.config.history.max_age_days > 0 ==> cutoff_text(
                        now,
                        self@.config.history.max_age_days,
                    ) == rfc3339_text(
                        (now.secs - 86400 * self@.config.history.max_age_days) as i64,
                        now.nanos,
                    )
                }),
            self@.config.history.max_age_days <= MAX_AGE_DAYS ==> r is Some,
    {
        let now: Timestamp = read_utc_clock();
        self.cleanup_at(now)
    }
}

} // verus!
