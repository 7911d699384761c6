//! Error types for the notification daemon.

use crate::text::{decimal, decimal_text, join};
use vstd::prelude::*;

verus! {

/// An error of the daemon. Errors of the message bus, the database and the
/// operating system are carried as their texts.
#[derive(Debug)]
pub enum NotifyError {
    /// The message bus failed.
    Dbus(String),
    /// A notification or message is not acceptable.
    Invalid(String),
    /// There is no notification with this ID.
    NotFound(u32),
    /// The database failed.
    Db(String),
    /// Reading or writing failed.
    Io(String),
}

impl NotifyError {
    /// The text shown for an error.
    pub open spec fn text(self) -> Seq<char> {
        match self {
            NotifyError::Dbus(e) => "D-Bus error: "@ + e@,
            NotifyError::Invalid(e) => "invalid notification: "@ + e@,
            NotifyError::NotFound(id) => "notification not found: "@ + decimal_text(id as nat),
            NotifyError::Db(e) => "database error: "@ + e@,
            NotifyError::Io(e) => "IO error: "@ + e@,
        }
    }

    /// The text shown for an error.
    pub fn message(&self) -> (r: String)
        ensures
            r@ == self.text(),
            self matches NotifyError::Dbus(e) ==> r@ == "D-Bus error: "@ + e@,
            self matches NotifyError::Invalid(e) ==> r@ == "invalid notification: "@ + e@,
            self matches NotifyError::NotFound(id) ==> r@ == "notification not found: "@
                + decimal_text(*id as nat),
            self matches NotifyError::Db(e) ==> r@ == "database error: "@ + e@,
            self matches NotifyError::Io(e) ==> r@ == "IO error: "@ + e@,
    {
        match self {
            NotifyError::Dbus(e) => join("D-Bus error: ", e.as_str()),
            NotifyError::Invalid(e) => join("invalid notification: ", e.as_str()),
            NotifyError::NotFound(id) => {
                let number: String = decimal(*id as u64);
                join("notification not found: ", number.as_str())
            },
            NotifyError::Db(e) => join("database error: ", e.as_str()),
            NotifyError::Io(e) => join("IO error: ", e.as_str()),
        }
    }
}

} // verus!
