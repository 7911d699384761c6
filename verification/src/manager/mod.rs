//! The notification manager and the rules it applies: validation, rate limits,
//! grouping.

pub mod grouping;
pub mod laws;
pub mod notification;
pub mod rate_limiter;
pub mod validation;

pub use notification::NotificationManager;
pub use rate_limiter::RateLimiter;
