//! The decisions behind the HTTP endpoints.

pub mod newsletters;
pub mod subscriptions;
pub mod subscriptions_confirm;
