//! Trigger-key detection and text injection for a desktop overlay.
//!
//! The platform (keyboard interception, accessibility queries, pasteboard,
//! synthetic key events) is driven by the host program; this library holds
//! the decisions made between those platform calls, each with a contract.

pub mod geometry;
pub mod focus;
pub mod monitor;
pub mod injector;
pub mod keychain;
