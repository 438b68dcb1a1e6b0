//! A small terminal counter application, split into the pieces that can be
//! reasoned about: the key-mapping table, the counter/lifecycle state machine,
//! and the textual rendering of the current state.
//!
//! The terminal session itself (alternate screen, raw mode, event polling) is
//! deliberately not part of this crate; a host binary owns it and hands plain
//! key events in and rendered rows out.

pub mod app;
pub mod keys;
pub mod render;
