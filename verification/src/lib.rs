//! Core of a terminal-emulator shell: configuration and theme resolution
//! with a recursive default cascade and strict validation, plus the state
//! machine that drives one child-process session and its keyboard shortcuts.
//! Rendering and the pseudo-terminal transport are external collaborators,
//! reached only through the values this crate produces.

pub mod color;
pub mod config;
pub mod doc;
pub mod options;
pub mod session;
pub mod shortcut;
pub mod theme;
