//! Configuration types, as loaded from `~/.config/lunaris/notifications.toml`.

use crate::names::NameMap;
use vstd::prelude::*;

verus! {

/// Root configuration.
#[derive(Debug, Clone)]
pub struct Config {
    pub general: GeneralConfig,
    pub dnd: DndConfig,
    /// History retention.
    pub history: HistoryConfig,
    pub grouping: GroupingConfig,
    /// Per-app overrides keyed by app name.
    pub apps: NameMap<AppOverride>,
}

impl Config {
    /// The settings of a daemon without a configuration file.
    pub open spec fn is_default(self) -> bool {
        &&& self.general.is_default()
        &&& self.dnd.is_default()
        &&& self.history.is_default()
        &&& self.grouping.is_default()
        &&& self.apps@ == Map::<Seq<char>, AppOverride>::empty()
    }
}

impl Default for Config {
    fn default() -> (r: Self)
        ensures
            r.is_default(),
    {
        Config {
            general: GeneralConfig::default(),
            dnd: DndConfig::default(),
            history: HistoryConfig::default(),
            grouping: GroupingConfig::default(),
            apps: NameMap::new(),
        }
    }
}

/// General daemon settings.
#[derive(Debug, Clone, Copy)]
pub struct GeneralConfig {
    /// Default toast duration for normal priority (ms).
    pub toast_duration_normal: u32,
    /// Default toast duration for high priority (ms).
    pub toast_duration_high: u32,
    /// Maximum number of visible toasts at once.
    pub max_visible_toasts: u32,
}

impl GeneralConfig {
    /// Four and eight seconds, five toasts.
    pub open spec fn is_default(self) -> bool {
        &&& self.toast_duration_normal == 4000
        &&& self.toast_duration_high == 8000
        &&& self.max_visible_toasts == 5
    }
}

impl Default for GeneralConfig {
    fn default() -> (r: Self)
        ensures
            r.is_default(),
    {
        GeneralConfig {
            toast_duration_normal: 4000,
            toast_duration_high: 8000,
            max_visible_toasts: 5,
        }
    }
}

/// Do Not Disturb configuration.
#[derive(Debug, Clone)]
pub struct DndConfig {
    /// Current DND mode.
    pub mode: DndMode,
    /// RFC 3339 timestamp at which the current mode expires back to `Off`.
    /// `None`: the mode stays until the user changes it.
    pub expires_at: Option<String>,
    /// Schedule for automatic DND (only used when the mode is `Scheduled`).
    pub schedule: DndSchedule,
    /// Suppress notifications from these apps even when DND is off.
    pub always_suppress: Vec<String>,
    /// Allow notifications from these apps even when DND is on. Honoured by
    /// every mode, `Total` included.
    pub always_allow: Vec<String>,
    /// Suppress toasts when any window is fullscreen.
    pub suppress_fullscreen: bool,
}

impl DndConfig {
    /// Off, never expiring, no app lists, toasts held back under fullscreen.
    pub open spec fn is_default(self) -> bool {
        &&& self.mode == DndMode::Off
        &&& self.expires_at is None
        &&& self.schedule.is_default()
        &&& self.always_suppress@.len() == 0
        &&& self.always_allow@.len() == 0
        &&& self.suppress_fullscreen
    }
}

impl Default for DndConfig {
    fn default() -> (r: Self)
        ensures
            r.is_default(),
    {
        DndConfig {
            mode: DndMode::Off,
            expires_at: None,
            schedule: DndSchedule::default(),
            always_suppress: Vec::new(),
            always_allow: Vec::new(),
            suppress_fullscreen: true,
        }
    }
}

/// DND operating mode.
///
/// Modes are checked after `always_allow`, so a listed app always passes
/// regardless of mode.
#[derive(Debug, Clone, Copy, PartialEq, Eq, Structural)]
pub enum DndMode {
    /// DND off. All notifications pass.
    Off,
    /// Only critical notifications pass (plus `always_allow`).
    Priority,
    /// Only alarm and reminder notifications pass (plus `always_allow`).
    Alarms,
    /// Nothing passes except `always_allow`.
    Total,
    /// DND follows a time schedule; `schedule.mode` chooses which suppression
    /// is active inside the scheduled window.
    Scheduled,
}

impl Default for DndMode {
    fn default() -> (r: Self)
        ensures
            r == DndMode::Off,
    {
        DndMode::Off
    }
}

/// Time schedule for DND.
#[derive(Debug, Clone)]
pub struct DndSchedule {
    /// Start time in HH:MM format (24h).
    pub start: String,
    /// End time in HH:MM format (24h). Can be before start for overnight.
    pub end: String,
    /// Days of the week (0 = Monday, 6 = Sunday). Empty: every day.
    pub days: Vec<u8>,
    /// Suppression to apply inside the scheduled window.
    pub mode: ScheduleMode,
}

impl DndSchedule {
    /// Every night from 22:00 to 07:00, critical notifications only.
    pub open spec fn is_default(self) -> bool {
        &&& self.start@ == "22:00"@
        &&& self.end@ == "07:00"@
        &&& self.days@.len() == 0
        &&& self.mode == ScheduleMode::Priority
    }
}

impl Default for DndSchedule {
    fn default() -> (r: Self)
        ensures
            r.is_default(),
    {
        DndSchedule {
            start: "22:00".to_string(),
            end: "07:00".to_string(),
            days: Vec::new(),
            mode: default_schedule_mode(),
        }
    }
}

/// The mode of a schedule that names none.
pub fn default_schedule_mode() -> (r: ScheduleMode)
    ensures
        r == ScheduleMode::Priority,
{
    ScheduleMode::Priority
}

/// Sub-mode for scheduled DND: a [`DndMode`] other than `Off` and `Scheduled`,
/// which make no sense inside a scheduled window.
#[derive(Debug, Clone, Copy, PartialEq, Eq, Structural)]
pub enum ScheduleMode {
    Priority,
    Alarms,
    Total,
}

impl Default for ScheduleMode {
    fn default() -> (r: Self)
        ensures
            r == ScheduleMode::Priority,
    {
        ScheduleMode::Priority
    }
}

/// History retention settings.
#[derive(Debug, Clone, Copy)]
pub struct HistoryConfig {
    /// Keep notifications in the history panel at all. When `false`
    /// notifications are dropped after broadcast.
    pub enabled: bool,
    /// Maximum age of dismissed notifications in days.
    pub max_age_days: u32,
    /// Maximum total notification count.
    pub max_count: u32,
}

impl HistoryConfig {
    /// On, thirty days, a thousand notifications.
    pub open spec fn is_default(self) -> bool {
        &&& self.enabled
        &&& self.max_age_days == 30
        &&& self.max_count == 1000
    }
}

impl Default for HistoryConfig {
    fn default() -> (r: Self)
        ensures
            r.is_default(),
    {
        HistoryConfig { enabled: true, max_age_days: 30, max_count: 1000 }
    }
}

/// Visual grouping settings, consumed by the shell.
#[derive(Debug, Clone, Copy)]
pub struct GroupingConfig {
    /// Group notifications by source app in the history panel.
    pub by_app: bool,
    /// Merge near-duplicate notifications into a single stacked entry.
    pub stack_similar: bool,
    /// Collapse a group automatically once it holds this many entries.
    pub auto_collapse_after: u32,
}

impl GroupingConfig {
    /// Grouped by app, stacked, collapsed from three entries on.
    pub open spec fn is_default(self) -> bool {
        &&& self.by_app
        &&& self.stack_similar
        &&& self.auto_collapse_after == 3
    }
}

impl Default for GroupingConfig {
    fn default() -> (r: Self)
        ensures
            r.is_default(),
    {
        GroupingConfig { by_app: true, stack_similar: true, auto_collapse_after: 3 }
    }
}

/// Per-app notification overrides.
#[derive(Debug, Clone)]
pub struct AppOverride {
    /// Accept notifications from this app at all. `Some(false)` drops them
    /// before storage and broadcast; `None` behaves as enabled.
    pub enabled: Option<bool>,
    /// Override priority for this app ("low", "normal", "high", "critical").
    pub priority: Option<String>,
    /// Store silently: notifications go into the history panel but no toast is
    /// shown.
    pub suppress: Option<bool>,
    /// Override toast duration (ms).
    pub toast_duration: Option<u32>,
    /// Bypass DND for this app.
    pub bypass_dnd: Option<bool>,
}

impl Default for AppOverride {
    fn default() -> (r: Self)
        ensures
            r.enabled is None,
            r.priority is None,
            r.suppress is None,
            r.toast_duration is None,
            r.bypass_dnd is None,
    {
        AppOverride {
            enabled: None,
            priority: None,
            suppress: None,
            toast_duration: None,
            bypass_dnd: None,
        }
    }
}

/// The settings without a configuration file, one by one.
pub proof fn default_settings(config: Config)
    requires
        config.is_default(),
    ensures
        config.general.toast_duration_normal == 4000,
        config.general.toast_duration_high == 8000,
        config.general.max_visible_toasts == 5,
        config.dnd.mode == DndMode::Off,
        config.dnd.expires_at is None,
        config.dnd.schedule.start@ == "22:00"@,
        config.dnd.schedule.end@ == "07:00"@,
        config.dnd.schedule.days@.len() == 0,
        config.dnd.schedule.mode == ScheduleMode::Priority,
        config.dnd.always_suppress@.len() == 0,
        config.dnd.always_allow@.len() == 0,
        config.dnd.suppress_fullscreen,
        config.history.enabled,
        config.history.max_age_days == 30,
        config.history.max_count == 1000,
        config.grouping.by_app,
        config.grouping.stack_similar,
        config.grouping.auto_collapse_after == 3,
        forall|name: Seq<char>| !config.apps@.contains_key(name),
{
}

} // verus!
