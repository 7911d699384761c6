//! What holds of every DND decision.

use crate::clock::{rfc3339_time, LocalTime, Timestamp};
use crate::config::types::ScheduleMode;
use crate::config::{AppOverride, DndConfig, DndMode, DndSchedule};
use crate::dbus::server::{NotificationView, Priority};
use crate::dnd::state::{
    alarm_category, ascii_lower, begins_with, day_scheduled, expired, in_window, mode_at,
    schedule_active, time_of_day, DndView, EffectiveMode, SuppressResult,
};
use crate::text::{
    decimal_reads_back, decimal_text, digit_stands_for_its_value, digits_are_read_unless_too_large,
    digits_value, first_index, lemma_first_index, number_text_is_digits, number_text_reads_back,
    texts, u32_from_text, zeros,
};
use vstd::prelude::*;

verus! {

/// An app override that blocks the app.
pub open spec fn blocks(app_override: Option<&AppOverride>) -> bool {
    app_override matches Some(ovr) && ovr.enabled == Some(false)
}

/// An app override that stores the app's notifications silently.
pub open spec fn silences(app_override: Option<&AppOverride>) -> bool {
    app_override matches Some(ovr) && ovr.suppress == Some(true)
}

/// An app override that takes the app out of DND.
pub open spec fn bypasses(app_override: Option<&AppOverride>) -> bool {
    app_override matches Some(ovr) && ovr.bypass_dnd == Some(true)
}

/// Whether an app is decided on by its own settings alone, whatever the mode:
/// it is blocked, silenced, listed, or bypasses DND.
pub open spec fn has_own_rule(
    app_name: Seq<char>,
    dnd_config: DndConfig,
    app_override: Option<&AppOverride>,
) -> bool {
    ||| blocks(app_override)
    ||| silences(app_override)
    ||| texts(dnd_config.always_suppress@).contains(app_name)
    ||| texts(dnd_config.always_allow@).contains(app_name)
    ||| bypasses(app_override)
}

/// A blocked app is dropped, critical notifications included.
pub proof fn blocked_app_is_dropped(
    state: DndView,
    n: NotificationView,
    dnd_config: DndConfig,
    app_override: Option<&AppOverride>,
    mode: EffectiveMode,
)
    requires
        blocks(app_override),
    ensures
        state.decision(n, dnd_config, app_override, mode) == SuppressResult::Drop,
{
}

/// A silenced or always-suppressed app that is not blocked is suppressed,
/// critical notifications included, even with DND off.
pub proof fn silenced_app_is_suppressed(
    state: DndView,
    n: NotificationView,
    dnd_config: DndConfig,
    app_override: Option<&AppOverride>,
    mode: EffectiveMode,
)
    requires
        !blocks(app_override),
        silences(app_override) || texts(dnd_config.always_suppress@).contains(n.app_name),
    ensures
        state.decision(n, dnd_config, app_override, mode) == SuppressResult::Suppress,
{
}

/// An always-allowed app, or one that bypasses DND, passes whatever the mode
/// and the focus session are: only a fullscreen window holds it back, and then
/// it is queued.
pub proof fn allowed_app_passes(
    state: DndView,
    n: NotificationView,
    dnd_config: DndConfig,
    app_override: Option<&AppOverride>,
    mode: EffectiveMode,
)
    requires
        !blocks(app_override),
        !silences(app_override),
        !texts(dnd_config.always_suppress@).contains(n.app_name),
        texts(dnd_config.always_allow@).contains(n.app_name) || bypasses(app_override),
    ensures
        state.decision(n, dnd_config, app_override, mode) == (if dnd_config.suppress_fullscreen
            && state.fullscreen_active {
            SuppressResult::Queue
        } else {
            SuppressResult::Allow
        }),
{
}

/// Total silence drops every notification of an app without a rule of its own,
/// critical ones included.
pub proof fn total_drops_the_rest(
    state: DndView,
    n: NotificationView,
    dnd_config: DndConfig,
    app_override: Option<&AppOverride>,
)
    requires
        !has_own_rule(n.app_name, dnd_config, app_override),
    ensures
        state.decision(n, dnd_config, app_override, EffectiveMode::Total) == SuppressResult::Drop,
{
}

/// Priority mode keeps what is not critical in the history without a toast,
/// and shows what is critical.
pub proof fn priority_shows_critical_only(
    state: DndView,
    n: NotificationView,
    dnd_config: DndConfig,
    app_override: Option<&AppOverride>,
)
    requires
        !has_own_rule(n.app_name, dnd_config, app_override),
    ensures
        state.decision(n, dnd_config, app_override, EffectiveMode::Priority) == (if n.priority
            == Priority::Critical {
            SuppressResult::Allow
        } else {
            SuppressResult::Suppress
        }),
{
}

/// Alarms mode keeps what is neither alarm nor reminder in the history without
/// a toast, even if it is critical.
pub proof fn alarms_suppresses_other_categories(
    state: DndView,
    n: NotificationView,
    dnd_config: DndConfig,
    app_override: Option<&AppOverride>,
)
    requires
        !has_own_rule(n.app_name, dnd_config, app_override),
        !alarm_category(n.category),
    ensures
        state.decision(n, dnd_config, app_override, EffectiveMode::Alarms)
            == SuppressResult::Suppress,
{
}

/// With DND off, a critical notification of an app without a rule of its own
/// is shown: neither focus nor a fullscreen window holds it back.
pub proof fn critical_interrupts(
    state: DndView,
    n: NotificationView,
    dnd_config: DndConfig,
    app_override: Option<&AppOverride>,
)
    requires
        !has_own_rule(n.app_name, dnd_config, app_override),
        n.priority == Priority::Critical,
    ensures
        state.decision(n, dnd_config, app_override, EffectiveMode::Off) == SuppressResult::Allow,
{
}

/// A notification is dropped only if its app is blocked or the mode is total.
pub proof fn only_blocks_and_total_drop(
    state: DndView,
    n: NotificationView,
    dnd_config: DndConfig,
    app_override: Option<&AppOverride>,
    mode: EffectiveMode,
)
    requires
        state.decision(n, dnd_config, app_override, mode) == SuppressResult::Drop,
    ensures
        blocks(app_override) || mode == EffectiveMode::Total,
{
}

/// A notification is queued only while a fullscreen window is active and the
/// configuration holds toasts back for it.
pub proof fn queue_only_under_fullscreen(
    state: DndView,
    n: NotificationView,
    dnd_config: DndConfig,
    app_override: Option<&AppOverride>,
    mode: EffectiveMode,
)
    requires
        state.decision(n, dnd_config, app_override, mode) == SuppressResult::Queue,
    ensures
        state.fullscreen_active,
        dnd_config.suppress_fullscreen,
{
}

/// Focus decides only between showing and suppressing: two states that differ
/// in the focus session alone differ in nothing else.
pub proof fn focus_only_suppresses(
    with_focus: DndView,
    without_focus: DndView,
    n: NotificationView,
    dnd_config: DndConfig,
    app_override: Option<&AppOverride>,
    mode: EffectiveMode,
)
    requires
        with_focus.fullscreen_active == without_focus.fullscreen_active,
        without_focus.focus.project is None,
    ensures
        ({
            let focused = with_focus.decision(n, dnd_config, app_override, mode);
            let plain = without_focus.decision(n, dnd_config, app_override, mode);
            focused == plain || (focused == SuppressResult::Suppress && n.priority
                != Priority::Critical && with_focus.focus.suppresses(n.app_name))
        }),
{
}

/// A mode whose expiry lies in the past is off.
pub proof fn expired_mode_is_off(dnd_config: DndConfig, now: Timestamp, local: LocalTime)
    requires
        dnd_config.expires_at matches Some(ts) && expired(rfc3339_time(ts@), now),
    ensures
        mode_at(dnd_config, now, local) == EffectiveMode::Off,
{
}

/// An expiry that is not a valid timestamp changes nothing: the mode is the
/// one without any expiry.
pub proof fn invalid_expiry_keeps_mode(
    dnd_config: DndConfig,
    without_expiry: DndConfig,
    now: Timestamp,
    local: LocalTime,
)
    requires
        dnd_config.expires_at matches Some(ts) && rfc3339_time(ts@) is None,
        without_expiry == (DndConfig { expires_at: None, ..dnd_config }),
    ensures
        mode_at(dnd_config, now, local) == mode_at(without_expiry, now, local),
{
}

/// Once a mode has expired it stays expired.
pub proof fn expiry_is_final(expiry: Option<(i64, u32)>, now: Timestamp, later: Timestamp)
    requires
        expired(expiry, now),
        now.before(later),
    ensures
        expired(expiry, later),
{
}

/// Only the scheduled mode depends on the time of day.
pub proof fn fixed_mode_ignores_schedule(
    dnd_config: DndConfig,
    now: Timestamp,
    local: LocalTime,
    other: LocalTime,
)
    requires
        dnd_config.mode != DndMode::Scheduled,
    ensures
        mode_at(dnd_config, now, local) == mode_at(dnd_config, now, other),
{
}

/// An overnight window is the rest of the day's window with start and end
/// exchanged.
pub proof fn overnight_window_is_complement(start: u32, end: u32, time: u32)
    requires
        start != end,
    ensures
        in_window(start, end, time) == !in_window(end, start, time),
{
}

/// A window begins with its start and leaves its end out.
pub proof fn window_is_half_open(start: u32, end: u32)
    requires
        start != end,
    ensures
        in_window(start, end, start),
        !in_window(start, end, end),
{
}

/// A window whose start is its end holds no time.
pub proof fn empty_window_holds_nothing(start: u32, time: u32)
    ensures
        !in_window(start, start, time),
{
}

/// A schedule with an invalid time is never active.
pub proof fn invalid_schedule_is_never_active(schedule: DndSchedule, local: LocalTime)
    requires
        time_of_day(schedule.start@) is None || time_of_day(schedule.end@) is None,
    ensures
        !schedule_active(schedule, local),
{
}

/// A schedule that lists days is not active on any other day.
pub proof fn schedule_keeps_to_its_days(schedule: DndSchedule, local: LocalTime)
    requires
        schedule.days@.len() > 0,
        !schedule.days@.contains(local.weekday),
    ensures
        !schedule_active(schedule, local),
{
}

/// A schedule without a list of days treats every day alike.
pub proof fn schedule_without_days_runs_daily(schedule: DndSchedule, a: LocalTime, b: LocalTime)
    requires
        schedule.days@.len() == 0,
        a.second_of_day == b.second_of_day,
    ensures
        day_scheduled(schedule.days@, a.weekday),
        schedule_active(schedule, a) == schedule_active(schedule, b),
{
}

/// A time of day is a full minute within a day.
pub proof fn time_of_day_is_a_full_minute(text: Seq<char>)
    requires
        time_of_day(text) is Some,
    ensures
        time_of_day(text)->0 < 86400,
        time_of_day(text)->0 % 60 == 0,
{
}

/// With DND off, a notification of an app without a rule of its own is shown,
/// whatever its priority: only a fullscreen window delays it, unless it is
/// critical. It is stored silently only if it is not critical and the focus
/// session suppresses its app.
pub proof fn off_holds_back_for_focus_and_fullscreen_only(
    state: DndView,
    n: NotificationView,
    dnd_config: DndConfig,
    app_override: Option<&AppOverride>,
)
    requires
        !has_own_rule(n.app_name, dnd_config, app_override),
    ensures
        ({
            let result = state.decision(n, dnd_config, app_override, EffectiveMode::Off);
            let suppressed = n.priority != Priority::Critical && state.focus.suppresses(n.app_name);
            let delayed = n.priority != Priority::Critical && state.fullscreen_active
                && dnd_config.suppress_fullscreen;
            &&& result == SuppressResult::Suppress <==> suppressed
            &&& result == SuppressResult::Queue <==> !suppressed && delayed
            &&& result == SuppressResult::Allow <==> !suppressed && !delayed
            &&& result != SuppressResult::Drop
        }),
{
}

/// What a mode lets through it treats as with DND off: an alarm or reminder
/// under alarms mode, and a critical notification under priority mode.
pub proof fn let_through_is_as_with_dnd_off(
    state: DndView,
    n: NotificationView,
    dnd_config: DndConfig,
    app_override: Option<&AppOverride>,
    mode: EffectiveMode,
)
    requires
        !has_own_rule(n.app_name, dnd_config, app_override),
        mode == EffectiveMode::Alarms && alarm_category(n.category) || mode
            == EffectiveMode::Priority && n.priority == Priority::Critical,
    ensures
        state.decision(n, dnd_config, app_override, mode) == state.decision(
            n,
            dnd_config,
            app_override,
            EffectiveMode::Off,
        ),
{
}

/// What a mode does not let through depends on nothing else: neither on focus
/// nor on a fullscreen window.
pub proof fn held_back_whatever_the_state(
    state: DndView,
    n: NotificationView,
    dnd_config: DndConfig,
    app_override: Option<&AppOverride>,
    other: DndView,
    mode: EffectiveMode,
)
    requires
        mode == EffectiveMode::Total || mode == EffectiveMode::Priority && n.priority
            != Priority::Critical || mode == EffectiveMode::Alarms && !alarm_category(n.category),
        !has_own_rule(n.app_name, dnd_config, app_override),
    ensures
        state.decision(n, dnd_config, app_override, mode) == other.decision(
            n,
            dnd_config,
            app_override,
            mode,
        ),
        state.decision(n, dnd_config, app_override, mode) == (if mode == EffectiveMode::Total {
            SuppressResult::Drop
        } else {
            SuppressResult::Suppress
        }),
{
}

/// Of a notification, only its app, its category and whether it is critical
/// count: low, normal and high priority are treated alike, and so are all
/// texts, hints and times.
pub proof fn only_app_category_and_criticality_count(
    state: DndView,
    a: NotificationView,
    b: NotificationView,
    dnd_config: DndConfig,
    app_override: Option<&AppOverride>,
    mode: EffectiveMode,
)
    requires
        a.app_name == b.app_name,
        a.category == b.category,
        (a.priority == Priority::Critical) == (b.priority == Priority::Critical),
    ensures
        state.decision(a, dnd_config, app_override, mode) == state.decision(
            b,
            dnd_config,
            app_override,
            mode,
        ),
{
}

/// The category counts under alarms mode only.
pub proof fn category_counts_under_alarms_only(
    state: DndView,
    a: NotificationView,
    b: NotificationView,
    dnd_config: DndConfig,
    app_override: Option<&AppOverride>,
    mode: EffectiveMode,
)
    requires
        a.app_name == b.app_name,
        a.priority == b.priority,
        mode != EffectiveMode::Alarms,
    ensures
        state.decision(a, dnd_config, app_override, mode) == state.decision(
            b,
            dnd_config,
            app_override,
            mode,
        ),
{
}

/// A fullscreen window does nothing but delay what would be shown, and does so
/// only where the configuration asks for it. It delays all that would be shown,
/// except what is critical and of an app without a rule of its own.
pub proof fn fullscreen_only_delays(
    full: DndView,
    windowed: DndView,
    n: NotificationView,
    dnd_config: DndConfig,
    app_override: Option<&AppOverride>,
    mode: EffectiveMode,
)
    requires
        full.focus == windowed.focus,
        full.fullscreen_active,
        !windowed.fullscreen_active,
    ensures
        ({
            let during = full.decision(n, dnd_config, app_override, mode);
            let without = windowed.decision(n, dnd_config, app_override, mode);
            &&& without != SuppressResult::Queue
            &&& during == (if without == SuppressResult::Allow && dnd_config.suppress_fullscreen
                && (n.priority != Priority::Critical || has_own_rule(
                n.app_name,
                dnd_config,
                app_override,
            )) {
                SuppressResult::Queue
            } else {
                without
            })
        }),
{
}

/// An override that sets none of the three switches counts as no override.
pub proof fn override_without_switches_does_not_count(
    state: DndView,
    n: NotificationView,
    dnd_config: DndConfig,
    app_override: &AppOverride,
    mode: EffectiveMode,
)
    requires
        app_override.enabled != Some(false),
        app_override.suppress != Some(true),
        app_override.bypass_dnd != Some(true),
    ensures
        state.decision(n, dnd_config, Some(app_override), mode) == state.decision(
            n,
            dnd_config,
            None,
            mode,
        ),
{
}

/// Whether a character is a given lower-case letter or its upper-case form.
pub open spec fn same_letter(c: char, lower: char) -> bool {
    c == lower || ('a' <= lower <= 'z' && c as int == lower as int - 32)
}

/// Whether a text begins with a text in lower case, in any case.
pub open spec fn begins_in_any_case(text: Seq<char>, lower: Seq<char>) -> bool {
    &&& lower.len() <= text.len()
    &&& forall|i: int| 0 <= i < lower.len() ==> same_letter(#[trigger] text[i], lower[i])
}

/// A category is an alarm or a reminder exactly if it begins with one of four
/// words, in any case.
pub proof fn alarms_and_reminders_are_named_by_prefix(category: Seq<char>)
    ensures
        alarm_category(category) <==> begins_in_any_case(category, "alarm"@) || begins_in_any_case(
            category,
            "x-alarm"@,
        ) || begins_in_any_case(category, "reminder"@) || begins_in_any_case(
            category,
            "x-reminder"@,
        ),
{
    reveal_strlit("alarm");
    reveal_strlit("x-alarm");
    reveal_strlit("reminder");
    reveal_strlit("x-reminder");
    lemma_begins(category, "alarm"@);
    lemma_begins(category, "x-alarm"@);
    lemma_begins(category, "reminder"@);
    lemma_begins(category, "x-reminder"@);
}

proof fn lemma_begins(text: Seq<char>, lower: Seq<char>)
    requires
        forall|i: int| 0 <= i < lower.len() ==> 'a' <= #[trigger] lower[i] <= 'z' || lower[i] == '-',
    ensures
        begins_with(text, lower) <==> begins_in_any_case(text, lower),
{
    let folded = text.map_values(|c: char| ascii_lower(c));
    if begins_with(text, lower) {
        assert forall|i: int| 0 <= i < lower.len() implies same_letter(
            #[trigger] text[i],
            lower[i],
        ) by {
            assert(lower[i] == folded.subrange(0, lower.len() as int)[i]);
            assert(folded[i] == ascii_lower(text[i]));
        }
    }
    if begins_in_any_case(text, lower) {
        assert forall|i: int| 0 <= i < lower.len() implies lower[i] == #[trigger] folded[i] by {
            assert(same_letter(text[i], lower[i]));
        }
        assert(lower =~= folded.subrange(0, lower.len() as int));
    }
}

/// A mode that has not expired and follows no schedule is the configured one.
pub proof fn fixed_mode_is_the_configured_one(
    dnd_config: DndConfig,
    now: Timestamp,
    local: LocalTime,
)
    requires
        dnd_config.expires_at matches Some(ts) ==> !expired(rfc3339_time(ts@), now),
    ensures
        dnd_config.mode == DndMode::Off ==> mode_at(dnd_config, now, local) == EffectiveMode::Off,
        dnd_config.mode == DndMode::Priority ==> mode_at(dnd_config, now, local)
            == EffectiveMode::Priority,
        dnd_config.mode == DndMode::Alarms ==> mode_at(dnd_config, now, local)
            == EffectiveMode::Alarms,
        dnd_config.mode == DndMode::Total ==> mode_at(dnd_config, now, local)
            == EffectiveMode::Total,
{
}

/// A scheduled mode that has not expired is the one of the schedule while the
/// schedule is active, and off otherwise.
pub proof fn scheduled_mode_follows_the_schedule(
    dnd_config: DndConfig,
    now: Timestamp,
    local: LocalTime,
)
    requires
        dnd_config.mode == DndMode::Scheduled,
        dnd_config.expires_at matches Some(ts) ==> !expired(rfc3339_time(ts@), now),
    ensures
        ({
            let mode = mode_at(dnd_config, now, local);
            &&& mode == EffectiveMode::Off <==> !schedule_active(dnd_config.schedule, local)
            &&& mode == EffectiveMode::Priority <==> schedule_active(dnd_config.schedule, local)
                && dnd_config.schedule.mode == ScheduleMode::Priority
            &&& mode == EffectiveMode::Alarms <==> schedule_active(dnd_config.schedule, local)
                && dnd_config.schedule.mode == ScheduleMode::Alarms
            &&& mode == EffectiveMode::Total <==> schedule_active(dnd_config.schedule, local)
                && dnd_config.schedule.mode == ScheduleMode::Total
        }),
{
}

/// A time before another, outside leap seconds, is fewer nanoseconds after 1970.
/// An expiry has passed exactly from the first nanosecond after it.
pub proof fn expiry_passes_after_its_nanosecond(secs: i64, nanos: u32, now: Timestamp)
    requires
        nanos < 1_000_000_000,
        now.nanos < 1_000_000_000,
    ensures
        expired(Some((secs, nanos)), now) <==> secs * 1_000_000_000 + nanos < now.secs
            * 1_000_000_000 + now.nanos,
        (Timestamp { secs, nanos }).before(now) <==> secs * 1_000_000_000 + nanos < now.secs
            * 1_000_000_000 + now.nanos,
        !expired(None, now),
{
}

/// A time of day lies in a window exactly if it is less far behind the start
/// than the end is, going round the clock.
pub proof fn window_goes_round_the_clock(start: u32, end: u32, time: u32)
    requires
        start < 86400,
        end < 86400,
        time < 86400,
    ensures
        in_window(start, end, time) <==> (time - start) % 86400 < (end - start) % 86400,
{
}

/// Two windows, one of which begins where the other ends, make up one window.
pub proof fn windows_join(start: u32, middle: u32, end: u32, time: u32)
    requires
        start <= middle <= end,
    ensures
        in_window(start, end, time) <==> in_window(start, middle, time) || in_window(
            middle,
            end,
            time,
        ),
        !(in_window(start, middle, time) && in_window(middle, end, time)),
{
}

/// Two texts around a colon stand for a time of day exactly if they are an hour
/// below 24 and a minute below 60; the time is then that minute of that hour.
pub proof fn clock_text_is_an_hour_and_a_minute(left: Seq<char>, right: Seq<char>)
    requires
        !left.contains(':'),
        !right.contains(':'),
    ensures
        ({
            let time = time_of_day(left + seq![':'] + right);
            let hour = u32_from_text(left);
            let minute = u32_from_text(right);
            &&& time is Some <==> hour is Some && minute is Some && hour->0 < 24 && minute->0 < 60
            &&& time is Some ==> time->0 / 3600 == hour->0 && time->0 % 3600 / 60 == minute->0
                && time->0 % 60 == 0
        }),
{
    let text = left + seq![':'] + right;
    let k = left.len() as int;
    assert forall|i: int| 0 <= i < k implies text[i] != ':' by {
        assert(left.contains(left[i]));
    }
    lemma_first_index(text, ':', k);
    assert(text.take(k) =~= left);
    assert(text.skip(k + 1) =~= right);
    if let (Some(h), Some(m)) = (u32_from_text(left), u32_from_text(right)) {
        if h < 24 && m < 60 {
            let t = h * 3600 + m * 60;
            assert(t / 3600 == h && t % 3600 == m * 60 && t % 60 == 0);
        }
    }
}

/// A text without a colon, or with two, stands for no time of day.
pub proof fn clock_text_has_one_colon(text: Seq<char>)
    requires
        time_of_day(text) is Some,
    ensures
        exists|k: int|
            0 <= k < text.len() && #[trigger] text[k] == ':' && forall|i: int|
                0 <= i < text.len() && i != k ==> text[i] != ':',
{
    let k = first_index(text, ':') as int;
    lemma_first_index_reached(text, ':');
    assert(text[k] == ':');
    assert forall|i: int| 0 <= i < text.len() && i != k implies text[i] != ':' by {
        if i > k {
            assert(text.skip(k + 1)[i - k - 1] == text[i]);
        }
    }
}

proof fn lemma_first_index_reached(s: Seq<char>, sep: char)
    ensures
        first_index(s, sep) <= s.len(),
        first_index(s, sep) < s.len() ==> s[first_index(s, sep) as int] == sep,
        forall|i: int| 0 <= i < first_index(s, sep) ==> s[i] != sep,
    decreases s.len(),
{
    if s.len() > 0 && s[0] != sep {
        let rest = s.drop_first();
        lemma_first_index_reached(rest, sep);
        assert forall|i: int| 0 <= i < first_index(s, sep) implies s[i] != sep by {
            if i > 0 {
                assert(rest[i - 1] == s[i]);
            }
        }
    }
}

/// An hour and a minute in decimal around a colon, with or without leading
/// zeros, stand for the seconds from midnight to that minute.
pub proof fn clock_text_stands_for_its_minute(
    hour: u32,
    minute: u32,
    hour_zeros: nat,
    minute_zeros: nat,
)
    requires
        hour < 24,
        minute < 60,
    ensures
        time_of_day(
            (zeros(hour_zeros) + decimal_text(hour as nat)) + seq![':'] + (zeros(minute_zeros)
                + decimal_text(minute as nat)),
        ) == Some((hour * 3600 + minute * 60) as u32),
{
    let left = zeros(hour_zeros) + decimal_text(hour as nat);
    let right = zeros(minute_zeros) + decimal_text(minute as nat);
    lemma_no_colon(hour, hour_zeros);
    lemma_no_colon(minute, minute_zeros);
    number_text_reads_back(hour, hour_zeros);
    number_text_reads_back(minute, minute_zeros);
    clock_text_is_an_hour_and_a_minute(left, right);
    let time = time_of_day(left + seq![':'] + right)->0;
    assert(time == time / 3600 * 3600 + time % 3600 / 60 * 60 + time % 60);
}

proof fn lemma_no_colon(n: u32, count: nat)
    ensures
        !(zeros(count) + decimal_text(n as nat)).contains(':'),
{
    let s = zeros(count) + decimal_text(n as nat);
    decimal_reads_back(n as nat);
    assert forall|i: int| 0 <= i < s.len() implies s[i] != ':' by {
        if i >= count {
            assert(s[i] == decimal_text(n as nat)[i - count]);
        }
    }
}

/// Two digits, a colon and two digits stand for a time of day exactly if the
/// hour is below 24 and the minute below 60: for the whole hour and the whole
/// minute.
pub proof fn two_digit_clock_text(a: char, b: char, c: char, d: char)
    requires
        '0' <= a <= '9',
        '0' <= b <= '9',
        '0' <= c <= '9',
        '0' <= d <= '9',
    ensures
        ({
            let hour = (a as int - '0' as int) * 10 + (b as int - '0' as int);
            let minute = (c as int - '0' as int) * 10 + (d as int - '0' as int);
            let time = time_of_day(seq![a, b, ':', c, d]);
            &&& time is Some <==> hour < 24 && minute < 60
            &&& time is Some ==> time->0 == hour * 3600 + minute * 60
        }),
{
    let left = seq![a, b];
    let right = seq![c, d];
    assert(left + seq![':'] + right =~= seq![a, b, ':', c, d]);
    lemma_two_digits(a, b);
    lemma_two_digits(c, d);
    clock_text_is_an_hour_and_a_minute(left, right);
    let time = time_of_day(seq![a, b, ':', c, d]);
    if time is Some {
        let t = time->0;
        assert(t == t / 3600 * 3600 + t % 3600 / 60 * 60 + t % 60);
    }
}

proof fn lemma_two_digits(a: char, b: char)
    requires
        '0' <= a <= '9',
        '0' <= b <= '9',
    ensures
        u32_from_text(seq![a, b]) == Some(
            ((a as int - '0' as int) * 10 + (b as int - '0' as int)) as u32,
        ),
        !seq![a, b].contains(':'),
{
    let s = seq![a, b];
    digit_stands_for_its_value(a);
    assert(s.drop_last() =~= seq![a]);
    assert(digits_value(s) == digits_value(seq![a]) * 10 + (b as nat - '0' as nat));
    digits_are_read_unless_too_large(s);
    number_text_is_digits(s);
}

/// A schedule with valid times is active, on a day that it applies to, exactly
/// while the clock has gone less far from its start than its end has.
pub proof fn schedule_follows_the_clock(
    schedule: DndSchedule,
    local: LocalTime,
    start: u32,
    end: u32,
)
    requires
        local.second_of_day < 86400,
        time_of_day(schedule.start@) == Some(start),
        time_of_day(schedule.end@) == Some(end),
    ensures
        schedule_active(schedule, local) <==> (schedule.days@.len() == 0 || exists|i: int|
            0 <= i < schedule.days@.len() && #[trigger] schedule.days@[i] == local.weekday) && (
        local.second_of_day - start) % 86400 < (end - start) % 86400,
{
    time_of_day_is_a_full_minute(schedule.start@);
    time_of_day_is_a_full_minute(schedule.end@);
    window_goes_round_the_clock(start, end, local.second_of_day);
}

/// A schedule begins with the minute that its start names: it is active then,
/// on a day that it applies to, and not active a minute before.
pub proof fn schedule_begins_with_its_minute(
    schedule: DndSchedule,
    hour: u32,
    minute: u32,
    hour_zeros: nat,
    minute_zeros: nat,
    before: LocalTime,
    at: LocalTime,
)
    requires
        hour < 24,
        minute < 60,
        schedule.start@ == (zeros(hour_zeros) + decimal_text(hour as nat)) + seq![':'] + (zeros(
            minute_zeros,
        ) + decimal_text(minute as nat)),
        time_of_day(schedule.end@) is Some,
        time_of_day(schedule.end@) != time_of_day(schedule.start@),
        schedule.days@.len() == 0 || schedule.days@.contains(at.weekday),
        at.second_of_day == hour * 3600 + minute * 60,
        before.second_of_day == (hour * 3600 + minute * 60 - 60) % 86400,
    ensures
        schedule_active(schedule, at),
        !schedule_active(schedule, before),
{
    clock_text_stands_for_its_minute(hour, minute, hour_zeros, minute_zeros);
    let start = time_of_day(schedule.start@)->0;
    let end = time_of_day(schedule.end@)->0;
    time_of_day_is_a_full_minute(schedule.end@);
    schedule_follows_the_clock(schedule, before, start, end);
    schedule_follows_the_clock(schedule, at, start, end);
    if schedule.days@.len() > 0 {
        let i = schedule.days@.index_of(at.weekday);
        assert(schedule.days@[i] == at.weekday);
    }
    time_of_day_is_a_full_minute(schedule.start@);
    lemma_minute_before(start as int, end as int, before.second_of_day as int);
}

proof fn lemma_minute_before(start: int, end: int, before: int)
    requires
        0 <= start < 86400,
        0 <= end < 86400,
        start % 60 == 0,
        end % 60 == 0,
        start != end,
        before == (start - 60) % 86400,
    ensures
        (before - start) % 86400 >= (end - start) % 86400,
        0 < (end - start) % 86400,
{
    if start < 60 {
        assert(start == 0);
        assert(before == 86340);
    } else {
        assert(before == start - 60);
    }
    if end < start {
        assert((end - start) % 86400 == end - start + 86400);
    } else {
        assert((end - start) % 86400 == end - start);
    }
    assert((before - start) % 86400 == 86340);
}

/// A schedule ends with the minute that its end names: it is active one second
/// before, on a day that it applies to, and no longer active then.
pub proof fn schedule_ends_before_its_end(
    schedule: DndSchedule,
    hour: u32,
    minute: u32,
    hour_zeros: nat,
    minute_zeros: nat,
    before: LocalTime,
    at: LocalTime,
)
    requires
        hour < 24,
        minute < 60,
        schedule.end@ == (zeros(hour_zeros) + decimal_text(hour as nat)) + seq![':'] + (zeros(
            minute_zeros,
        ) + decimal_text(minute as nat)),
        time_of_day(schedule.start@) is Some,
        time_of_day(schedule.start@) != time_of_day(schedule.end@),
        schedule.days@.len() == 0 || schedule.days@.contains(before.weekday),
        at.second_of_day == hour * 3600 + minute * 60,
        before.second_of_day == (hour * 3600 + minute * 60 - 1) % 86400,
    ensures
        schedule_active(schedule, before),
        !schedule_active(schedule, at),
{
    clock_text_stands_for_its_minute(hour, minute, hour_zeros, minute_zeros);
    let start = time_of_day(schedule.start@)->0;
    let end = time_of_day(schedule.end@)->0;
    time_of_day_is_a_full_minute(schedule.start@);
    schedule_follows_the_clock(schedule, before, start, end);
    schedule_follows_the_clock(schedule, at, start, end);
    if schedule.days@.len() > 0 {
        let i = schedule.days@.index_of(before.weekday);
        assert(schedule.days@[i] == before.weekday);
    }
    lemma_second_before(start as int, end as int, before.second_of_day as int);
}

proof fn lemma_second_before(start: int, end: int, before: int)
    requires
        0 <= start < 86400,
        0 <= end < 86400,
        start != end,
        before == (end - 1) % 86400,
    ensures
        (before - start) % 86400 == (end - start) % 86400 - 1,
{
    if end == 0 {
        assert(before == 86399);
    } else {
        assert(before == end - 1);
    }
}

} // verus!
