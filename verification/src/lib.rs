//! Session core of a drop-down, hotkey-toggled terminal overlay.
//!
//! The library owns the decisions of the overlay: which physical key toggles
//! it, how the four asynchronous event sources are merged into one message
//! stream, and how the session state machine (window visibility, tab set,
//! selected tab, id allocation) reacts to each message. Everything that
//! touches the operating system — window creation, tray icon, global hotkey
//! registration, signal delivery, timers — stays outside and communicates
//! with this core through plain values.

pub mod controller;
pub mod hotkey;
pub mod poll;
