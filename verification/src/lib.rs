//! Core logic of a chat bot that renders a typesetting command to an image.
//!
//! The crate verifies the decision logic of the bot: the session record that
//! keeps login credentials and the last sync cursor, the qualification gate
//! and reply construction of the render pipeline, the exponential backoff of
//! the room auto-joiner, and the long-poll synchronisation state machine.
//! Process spawning, networking and file I/O live outside the library and
//! hand it plain values.

pub mod autojoin;
pub mod render;
pub mod session;
pub mod sync_engine;
