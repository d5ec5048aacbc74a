//! Web push notifications for the dashboard.
//!
//! A push goes out when a session has stayed in a state that calls for the
//! user's attention; subscriptions belong to the token that made them.
pub mod codec;
pub mod dwell;
pub mod firing;
pub mod handlers;
pub mod laws;
pub mod notify;
pub mod promises;
pub mod store;
pub mod vapid;
