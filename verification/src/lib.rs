//! A bridge from a SQLite connection's row-change hook to a stream of
//! notifications.
//!
//! The native engine invokes a single callback per row inserted, updated or
//! deleted. This crate holds the verified half of that bridge: decoding the
//! raw callback arguments into [`notify::UpdateNotification`] values, and the
//! state machine that governs when the hook is registered, when a write
//! delivers a notification, and when the hook must be torn down.

pub mod bridge;
pub mod notify;

pub use bridge::HookAction;
pub use bridge::WatchBridge;
pub use notify::UpdateNotification;
pub use notify::UpdateOperation;
