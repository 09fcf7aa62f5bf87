//! Core of a small interactive terminal text UI: an append-only scroll
//! buffer with a capacity-bounded viewport, a single-line input editor,
//! an event classifier, and the coordination logic that ties them to a
//! render tick. Terminal painting and thread plumbing live outside this
//! crate; the state machines here are verified.

pub mod channel;
pub mod constants;
pub mod coordinator;
pub mod display;
pub mod editor;
pub mod events;
pub mod history;
pub mod render;
pub mod text;
pub mod ui;
