//! Decision logic of a keyboard-locking utility: which input devices are
//! keyboards, when privileges must be raised, how the application reacts to
//! each user action, and how themes are named and persisted.

pub mod text;
pub mod theme;
pub mod config;
pub mod device;
pub mod permission;
pub mod lock;
pub mod application;
pub mod style;
pub mod view;
pub mod laws;
pub mod icon;
