//! Relay of roster change notifications into a chat channel.
//!
//! The library holds the verified logic of a small chat bot: the
//! notification-relay subsystem (session state machine, event formatting,
//! supervisor restart policy) and the keyword-reaction decorator's
//! decision logic. All I/O lives outside the library.

pub mod event;
pub mod format;
pub mod session;
pub mod supervisor;
pub mod bridge;
pub mod fetcher;
pub mod reactions;
pub mod text;
