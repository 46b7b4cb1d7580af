//! Core logic of a terminal music-player client: a single-line text editor
//! driven by key events, and context-menu action catalogs derived from a
//! read-only snapshot of the user's library.

pub mod command;
pub mod key;
pub mod single_line_input;
pub mod state;
