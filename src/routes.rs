//! Decisions behind the HTTP endpoints.

pub mod subscriptions;

pub use subscriptions::FormData;
