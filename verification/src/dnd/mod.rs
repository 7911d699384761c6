//! Do Not Disturb: focus mode, schedules, and the decision on each
//! notification.

pub mod focus;
pub mod laws;
pub mod state;

pub use focus::FocusSuppression;
pub use state::{DndState, SuppressResult};
