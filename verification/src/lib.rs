//! Interactive-shell core: a screen-navigation controller, a persisted
//! visual-theme preference, and the text codec for the preference file.
//!
//! The library holds everything with invariants worth stating: the theme
//! registry and its cyclic order, the configuration record and its text
//! representation, the load/save outcome handling, and the event-driven
//! screen state machine. Terminal rendering and file system access live
//! outside the library and hand plain values in and out.

pub mod app;
pub mod codec;
pub mod config;
pub mod textscan;
pub mod theme;
