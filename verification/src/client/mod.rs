//! The client: how events reach the cache and the handlers.

pub mod bridge;
pub mod dispatch;
pub mod event_handler;
pub mod laws;
