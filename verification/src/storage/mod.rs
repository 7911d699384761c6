//! Persistent notification storage via SQLite: the rows of the database and
//! the statements that the daemon runs on it.

pub mod laws;
pub mod models;
pub mod sqlite;

pub use models::NotificationRow;
pub use sqlite::Database;
