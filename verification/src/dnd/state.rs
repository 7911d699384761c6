//! The DND decision on each notification.
//!
//! Evaluates whether a notification should be shown, suppressed, or queued,
//! based on DND mode, schedule, per-app overrides, focus mode and fullscreen
//! state.

use crate::clock::{
    full_minute, local_reading, parse_rfc3339, read_local_clock, read_utc_clock, rfc3339_time,
    utc_reading, LocalTime, Timestamp,
};
use crate::config::types::ScheduleMode;
use crate::config::{AppOverride, DndConfig, DndMode, DndSchedule};
use crate::dbus::server::{Notification, NotificationView, Priority};
use crate::dnd::focus::{FocusSuppression, FocusView};
use crate::text::{
    contains_char, find_char, first_index, list_contains, parse_u32, texts, u32_from_text,
};
use vstd::prelude::*;
use vstd::string::*;

verus! {

/// Result of checking whether a notification should be suppressed.
#[derive(Debug, Clone, Copy, PartialEq, Eq, Structural)]
pub enum SuppressResult {
    /// Show the notification normally.
    Allow,
    /// Suppress the toast but store the notification in history.
    Suppress,
    /// Queue for later (e.g. fullscreen exit). Store and defer toast.
    Queue,
    /// Drop entirely: skip storage, broadcast and history. Used for per-app
    /// `enabled = false` and `DndMode::Total` (except `always_allow`).
    Drop,
}

/// The DND mode actually applied to incoming notifications right now.
/// Flattens `Scheduled` into its sub-mode and honours `expires_at`.
#[derive(Debug, Clone, Copy, PartialEq, Eq, Structural)]
pub enum EffectiveMode {
    Off,
    Priority,
    Alarms,
    Total,
}

/// Runtime DND state.
#[derive(Debug)]
pub struct DndState {
    /// Whether a fullscreen window is currently active.
    pub fullscreen_active: bool,
    /// Focus Mode suppression (ephemeral, not persisted).
    pub focus: FocusSuppression,
}

/// The content of a [`DndState`].
pub struct DndView {
    pub fullscreen_active: bool,
    pub focus: FocusView,
}

impl View for DndState {
    type V = DndView;

    open spec fn view(&self) -> DndView {
        DndView { fullscreen_active: self.fullscreen_active, focus: self.focus@ }
    }
}

impl Default for DndState {
    fn default() -> (r: Self)
        ensures
            r@ == (DndView { fullscreen_active: false, focus: FocusView::inactive() }),
    {
        DndState { fullscreen_active: false, focus: FocusSuppression::default() }
    }
}

/// The lower-case form of an ASCII letter; any other character itself.
pub open spec fn ascii_lower(c: char) -> char {
    if 'A' <= c <= 'Z' {
        (c as u32 + 32) as char
    } else {
        c
    }
}

/// Whether a text begins with `prefix`, with ASCII letters in the text taken
/// in lower case.
pub open spec fn begins_with(text: Seq<char>, prefix: Seq<char>) -> bool {
    prefix.is_prefix_of(text.map_values(|c: char| ascii_lower(c)))
}

/// Whether a category names an alarm or a reminder.
pub open spec fn alarm_category(category: Seq<char>) -> bool {
    ||| begins_with(category, "alarm"@)
    ||| begins_with(category, "x-alarm"@)
    ||| begins_with(category, "reminder"@)
    ||| begins_with(category, "x-reminder"@)
}

/// Whether an effective mode lets a notification through.
pub open spec fn mode_allows(mode: EffectiveMode, n: NotificationView) -> bool {
    match mode {
        EffectiveMode::Off => true,
        EffectiveMode::Priority => n.priority == Priority::Critical,
        EffectiveMode::Alarms => alarm_category(n.category),
        EffectiveMode::Total => false,
    }
}

impl DndView {
    /// What becomes of a notification that only a fullscreen window can hold
    /// back.
    pub open spec fn fullscreen_result(self, dnd_config: DndConfig) -> SuppressResult {
        if dnd_config.suppress_fullscreen && self.fullscreen_active {
            SuppressResult::Queue
        } else {
            SuppressResult::Allow
        }
    }

    /// What becomes of a notification under an effective mode. The first rule
    /// that applies decides.
    pub open spec fn decision(
        self,
        n: NotificationView,
        dnd_config: DndConfig,
        app_override: Option<&AppOverride>,
        mode: EffectiveMode,
    ) -> SuppressResult {
        if app_override matches Some(ovr) && ovr.enabled == Some(false) {
            SuppressResult::Drop
        } else if app_override matches Some(ovr) && ovr.suppress == Some(true) {
            SuppressResult::Suppress
        } else if texts(dnd_config.always_suppress@).contains(n.app_name) {
            SuppressResult::Suppress
        } else if texts(dnd_config.always_allow@).contains(n.app_name) {
            self.fullscreen_result(dnd_config)
        } else if app_override matches Some(ovr) && ovr.bypass_dnd == Some(true) {
            self.fullscreen_result(dnd_config)
        } else if !mode_allows(mode, n) {
            if mode == EffectiveMode::Total {
                SuppressResult::Drop
            } else {
                SuppressResult::Suppress
            }
        } else if n.priority == Priority::Critical {
            SuppressResult::Allow
        } else if self.focus.suppresses(n.app_name) {
            SuppressResult::Suppress
        } else {
            self.fullscreen_result(dnd_config)
        }
    }
}

impl DndState {
    /// Check fullscreen suppression (queues instead of hard suppress).
    fn check_fullscreen(&self, dnd_config: &DndConfig) -> (r: SuppressResult)
        ensures
            r == self@.fullscreen_result(*dnd_config),
    {
        if dnd_config.suppress_fullscreen && self.fullscreen_active {
            SuppressResult::Queue
        } else {
            SuppressResult::Allow
        }
    }

    /// Decide on a notification under a given effective mode.
    pub fn decide(
        &self,
        notification: &Notification,
        dnd_config: &DndConfig,
        app_override: Option<&AppOverride>,
        mode: EffectiveMode,
    ) -> (r: SuppressResult)
        ensures
            r == self@.decision(notification@, *dnd_config, app_override, mode),
    {
        // 1. Per-app hard block.
        if let Some(ovr) = app_override {
            if let Some(enabled) = ovr.enabled {
                if !enabled {
                    return SuppressResult::Drop;
                }
            }
        }
        // 2. Per-app force suppress.
        if let Some(ovr) = app_override {
            if let Some(suppress) = ovr.suppress {
                if suppress {
                    return SuppressResult::Suppress;
                }
            }
        }
        // 3. Always-suppress list.
        if list_contains(&dnd_config.always_suppress, notification.app_name.as_str()) {
            return SuppressResult::Suppress;
        }
        // 4. Always-allow list: bypasses ALL DND/focus regardless of mode.
        if list_contains(&dnd_config.always_allow, notification.app_name.as_str()) {
            return self.check_fullscreen(dnd_config);
        }
        // 5. Per-app bypass DND.
        if let Some(ovr) = app_override {
            if let Some(bypass) = ovr.bypass_dnd {
                if bypass {
                    return self.check_fullscreen(dnd_config);
                }
            }
        }
        // 6. DND mode.
        let allowed_by_mode: bool = match mode {
            EffectiveMode::Off => true,
            EffectiveMode::Priority => notification.priority == Priority::Critical,
            EffectiveMode::Alarms => is_alarm_category(notification.category.as_str()),
            EffectiveMode::Total => false,
        };
        if !allowed_by_mode {
            // Total silence drops; Priority/Alarms keep in history.
            return match mode {
                EffectiveMode::Total => SuppressResult::Drop,
                _ => SuppressResult::Suppress,
            };
        }
        // 7. Focus Mode suppression. Critical still always passes.
        if notification.priority != Priority::Critical && self.focus.is_suppressed(
            notification.app_name.as_str(),
        ) {
            return SuppressResult::Suppress;
        }
        // 8. Fullscreen suppression. Critical bypasses the queue so a genuine
        // alarm can interrupt an immersive app.
        if notification.priority == Priority::Critical {
            return SuppressResult::Allow;
        }
        self.check_fullscreen(dnd_config)
    }

    /// Determine whether a notification should be suppressed.
    ///
    /// Checks in order (first match wins):
    /// 1. Per-app `enabled = false` → Drop (no storage)
    /// 2. Per-app suppress override → Suppress
    /// 3. Always-suppress list → Suppress
    /// 4. Always-allow list → bypass all DND/focus, only check fullscreen
    /// 5. Per-app `bypass_dnd` → bypass all DND/focus, only check fullscreen
    /// 6. Effective DND mode (honours TTL + schedule) applied to the
    ///    notification priority / category
    /// 7. Focus Mode suppression
    /// 8. Fullscreen suppression
    ///
    /// The effective mode is the one at the time that the clocks show.
    pub fn should_suppress(
        &self,
        notification: &Notification,
        dnd_config: &DndConfig,
        app_override: Option<&AppOverride>,
    ) -> (r: SuppressResult)
        ensures
            exists|now: Timestamp, local: LocalTime|
                utc_reading(now) && local_reading(local) && r == self@.decision(
                    notification@,
                    *dnd_config,
                    app_override,
                    #[trigger] mode_at(*dnd_config, now, local),
                ),
    {
        let mode: EffectiveMode = effective_mode(dnd_config);
        self.decide(notification, dnd_config, app_override, mode)
    }
}

/// Whether an expiry text stands for a time strictly before `now`.
pub open spec fn expired(expiry: Option<(i64, u32)>, now: Timestamp) -> bool {
    match expiry {
        Some((secs, nanos)) => (Timestamp { secs, nanos }).before(now),
        None => false,
    }
}

/// The mode that a configured mode comes to, given whether it has expired and
/// whether the schedule is active.
pub open spec fn resolved_mode(
    mode: DndMode,
    schedule_mode: ScheduleMode,
    mode_expired: bool,
    in_schedule: bool,
) -> EffectiveMode {
    if mode_expired {
        EffectiveMode::Off
    } else {
        match mode {
            DndMode::Off => EffectiveMode::Off,
            DndMode::Priority => EffectiveMode::Priority,
            DndMode::Alarms => EffectiveMode::Alarms,
            DndMode::Total => EffectiveMode::Total,
            DndMode::Scheduled => if !in_schedule {
                EffectiveMode::Off
            } else {
                match schedule_mode {
                    ScheduleMode::Priority => EffectiveMode::Priority,
                    ScheduleMode::Alarms => EffectiveMode::Alarms,
                    ScheduleMode::Total => EffectiveMode::Total,
                }
            },
        }
    }
}

/// The effective mode at a given time.
pub open spec fn mode_at(dnd_config: DndConfig, now: Timestamp, local: LocalTime) -> EffectiveMode {
    resolved_mode(
        dnd_config.mode,
        dnd_config.schedule.mode,
        dnd_config.expires_at matches Some(ts) && expired(rfc3339_time(ts@), now),
        schedule_active(dnd_config.schedule, local),
    )
}

/// Whether a parsed expiry is strictly in the past relative to `now`. A text
/// that could not be parsed is not, so that a typo cannot silently flip DND
/// off.
pub fn is_past(expiry: Option<(i64, u32)>, now: Timestamp) -> (r: bool)
    ensures
        r == expired(expiry, now),
{
    match expiry {
        Some((secs, nanos)) => {
            let time: Timestamp = Timestamp { secs, nanos };
            time.is_before(now)
        },
        None => false,
    }
}

/// True if the RFC 3339 timestamp is strictly in the past relative to `now`.
/// Invalid timestamps are treated as not expired.
pub fn is_expired(iso: &str, now: Timestamp) -> (r: bool)
    ensures
        r == expired(rfc3339_time(iso@), now),
{
    is_past(parse_rfc3339(iso), now)
}

/// The mode that a configured mode comes to.
pub fn resolve_mode(
    mode: DndMode,
    schedule_mode: ScheduleMode,
    mode_expired: bool,
    in_schedule: bool,
) -> (r: EffectiveMode)
    ensures
        r == resolved_mode(mode, schedule_mode, mode_expired, in_schedule),
{
    if mode_expired {
        return EffectiveMode::Off;
    }
    match mode {
        DndMode::Off => EffectiveMode::Off,
        DndMode::Priority => EffectiveMode::Priority,
        DndMode::Alarms => EffectiveMode::Alarms,
        DndMode::Total => EffectiveMode::Total,
        DndMode::Scheduled => {
            if in_schedule {
                match schedule_mode {
                    ScheduleMode::Priority => EffectiveMode::Priority,
                    ScheduleMode::Alarms => EffectiveMode::Alarms,
                    ScheduleMode::Total => EffectiveMode::Total,
                }
            } else {
                EffectiveMode::Off
            }
        },
    }
}

/// Resolve the configured mode at a given time.
pub fn effective_mode_at(dnd_config: &DndConfig, now: Timestamp, local: LocalTime) -> (r:
    EffectiveMode)
    ensures
        r == mode_at(*dnd_config, now, local),
{
    let mode_expired: bool = match &dnd_config.expires_at {
        Some(ts) => is_expired(ts.as_str(), now),
        None => false,
    };
    let in_schedule: bool = is_in_schedule_when(&dnd_config.schedule, local);
    resolve_mode(dnd_config.mode, dnd_config.schedule.mode, mode_expired, in_schedule)
}

/// Resolve `dnd_config.mode` into an `EffectiveMode`, at the time of the call:
///   * If `expires_at` is set and in the past, return `Off`.
///   * `Scheduled` + inside window → `schedule.mode`.
///   * `Scheduled` + outside window → `Off`.
pub fn effective_mode(dnd_config: &DndConfig) -> (r: EffectiveMode)
    ensures
        exists|now: Timestamp, local: LocalTime|
            utc_reading(now) && local_reading(local) && r == #[trigger] mode_at(
                *dnd_config,
                now,
                local,
            ),
{
    effective_mode_at(dnd_config, read_utc_clock(), read_local_clock())
}

/// The lower-case form of an ASCII letter; any other character itself.
fn to_ascii_lower(c: char) -> (r: char)
    ensures
        r == ascii_lower(c),
{
    if 'A' <= c && c <= 'Z' {
        ((c as u8) + 32) as char
    } else {
        c
    }
}

/// Whether `text` begins with `prefix`, ignoring the case of ASCII letters in
/// `text`.
fn starts_with_lower(text: &str, prefix: &str) -> (r: bool)
    ensures
        r == begins_with(text@, prefix@),
{
    let ghost chars = text@;
    let ghost lower = chars.map_values(|c: char| ascii_lower(c));
    let wanted: usize = prefix.unicode_len();
    let mut k: usize = 0;
    for c in it: text.chars()
        invariant
            it.seq() == chars,
            chars == text@,
            lower == chars.map_values(|c: char| ascii_lower(c)),
            k == it.index(),
            wanted == prefix@.len(),
            k <= wanted,
            forall|i: int| 0 <= i < k ==> prefix@[i] == lower[i],
    {
        if k == wanted {
            assert(prefix@ =~= lower.subrange(0, prefix@.len() as int));
            return true;
        }
        if to_ascii_lower(c) != prefix.get_char(k) {
            assert(prefix@[k as int] != lower[k as int]);
            assert(prefix@.is_prefix_of(lower) ==> prefix@[k as int] == lower[k as int]);
            return false;
        }
        k = k + 1;
    }
    if k == wanted {
        assert(prefix@ =~= lower.subrange(0, prefix@.len() as int));
    }
    k == wanted
}

/// True if a notification's category hint identifies it as an alarm or
/// reminder (`alarm*`, `x-alarm*`, `reminder*`, `x-reminder*`).
pub fn is_alarm_category(category: &str) -> (r: bool)
    ensures
        r == alarm_category(category@),
{
    starts_with_lower(category, "alarm") || starts_with_lower(category, "x-alarm")
        || starts_with_lower(category, "reminder") || starts_with_lower(category, "x-reminder")
}

/// The time of day that an `HH:MM` text stands for, in seconds since midnight:
/// two numbers around the only colon, an hour below 24 and a minute below 60.
pub open spec fn time_of_day(text: Seq<char>) -> Option<u32> {
    let k = first_index(text, ':') as int;
    if k < text.len() && !text.skip(k + 1).contains(':') {
        match (u32_from_text(text.take(k)), u32_from_text(text.skip(k + 1))) {
            (Some(h), Some(m)) => if h < 24 && m < 60 {
                Some((h * 3600 + m * 60) as u32)
            } else {
                None
            },
            _ => None,
        }
    } else {
        None
    }
}

/// Parses an `HH:MM` text.
fn parse_time(s: &str) -> (r: Option<u32>)
    ensures
        r == time_of_day(s@),
{
    let len: usize = s.unicode_len();
    let k: usize = find_char(s, ':');
    if k >= len {
        return None;
    }
    let left: &str = s.substring_char(0, k);
    let right: &str = s.substring_char(k + 1, len);
    assert(left@ =~= s@.take(k as int));
    assert(right@ =~= s@.skip(k + 1));
    if contains_char(right, ':') {
        return None;
    }
    let h: u32 = parse_u32(left)?;
    let m: u32 = parse_u32(right)?;
    full_minute(h, m)
}

/// Whether a schedule applies on a day of the week.
pub open spec fn day_scheduled(days: Seq<u8>, weekday: u8) -> bool {
    days.len() == 0 || days.contains(weekday)
}

/// Whether a time of day lies in the window from `start` to before `end`. A
/// window whose start is after its end runs over midnight.
pub open spec fn in_window(start: u32, end: u32, time: u32) -> bool {
    if start <= end {
        start <= time < end
    } else {
        start <= time || time < end
    }
}

/// The window of a schedule on a day of the week, if it has valid times and
/// applies on that day.
pub open spec fn window_on(schedule: DndSchedule, weekday: u8) -> Option<(u32, u32)> {
    match (time_of_day(schedule.start@), time_of_day(schedule.end@)) {
        (Some(start), Some(end)) => if day_scheduled(schedule.days@, weekday) {
            Some((start, end))
        } else {
            None
        },
        _ => None,
    }
}

/// Whether a schedule is active at a local time.
pub open spec fn schedule_active(schedule: DndSchedule, local: LocalTime) -> bool {
    match window_on(schedule, local.weekday) {
        Some((start, end)) => in_window(start, end, local.second_of_day),
        None => false,
    }
}

/// Whether a list of weekdays holds a day.
fn days_contain(days: &Vec<u8>, weekday: u8) -> (r: bool)
    ensures
        r == days@.contains(weekday),
{
    let mut i: usize = 0;
    while i < days.len()
        invariant
            i <= days@.len(),
            forall|j: int| 0 <= j < i ==> days@[j] != weekday,
        decreases days@.len() - i,
    {
        if days[i] == weekday {
            return true;
        }
        i += 1;
    }
    false
}

/// The window of a schedule on a day of the week.
fn window(schedule: &DndSchedule, weekday: u8) -> (r: Option<(u32, u32)>)
    ensures
        r == window_on(*schedule, weekday),
{
    let start: u32 = parse_time(schedule.start.as_str())?;
    let end: u32 = parse_time(schedule.end.as_str())?;
    if schedule.days.len() > 0 && !days_contain(&schedule.days, weekday) {
        return None;
    }
    Some((start, end))
}

/// Whether a time of day lies in a window.
fn is_in_window(start: u32, end: u32, time: u32) -> (r: bool)
    ensures
        r == in_window(start, end, time),
{
    if start <= end {
        // Same-day range (e.g. 09:00 - 17:00).
        time >= start && time < end
    } else {
        // Overnight range (e.g. 22:00 - 07:00).
        time >= start || time < end
    }
}

/// Check a schedule against a local time.
pub fn is_in_schedule_when(schedule: &DndSchedule, local: LocalTime) -> (r: bool)
    ensures
        r == schedule_active(*schedule, local),
{
    match window(schedule, local.weekday) {
        Some((start, end)) => is_in_window(start, end, local.second_of_day),
        None => false,
    }
}

/// Check if the current time falls within the DND schedule.
///
/// Handles overnight schedules (e.g. 22:00 - 07:00) and weekday filtering.
/// Empty `days` list means every day.
pub fn is_in_schedule(schedule: &DndSchedule) -> (r: bool)
    ensures
        exists|local: LocalTime|
            local_reading(local) && r == #[trigger] schedule_active(*schedule, local),
{
    is_in_schedule_when(schedule, read_local_clock())
}

/// Check a schedule against a full minute of a day of the week. The hour and
/// the minute must be valid where the schedule has a window on that day.
pub fn is_in_schedule_at(schedule: &DndSchedule, hour: u32, minute: u32, weekday: u8) -> (r: bool)
    requires
        window_on(*schedule, weekday) is Some ==> hour < 24 && minute < 60,
    ensures
        r == (window_on(*schedule, weekday) matches Some(w) && in_window(
            w.0,
            w.1,
            (hour * 3600 + minute * 60) as u32,
        )),
{
    match window(schedule, weekday) {
        Some((start, end)) => match full_minute(hour, minute) {
            Some(current) => is_in_window(start, end, current),
            None => false,
        },
        None => false,
    }
}

} // verus!
