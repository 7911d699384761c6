//! Daemon configuration: its types, loading, and the rule for hot reload.

pub mod load;
pub mod types;
pub mod watcher;

pub use load::load_config;
pub use types::{AppOverride, Config, DndConfig, DndMode, DndSchedule};
