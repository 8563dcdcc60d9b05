//! Control logic of a periodic key-press utility.
//!
//! A listener feeds global keyboard events to [`hotkeys::listen_to_hotkeys`],
//! which tracks the modifier keys and flips the shared flags on the two
//! recognised chords. A worker asks [`clicker::clicker_step`] what to do next:
//! emit one press of the configured key, idle, or shut the process down.
//! [`arguments::check_arguments`] turns the command line into the
//! configuration. The module `session` states what holds of whole runs.

pub mod arguments;
pub mod clicker;
pub mod control;
pub mod hotkeys;
pub mod session;
