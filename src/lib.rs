//! A modal terminal text editor's core: a rope-backed text buffer with
//! grapheme-aware navigation, a cursor and selection, and the Normal/Insert
//! mode state machine that turns commands into edits and events.

pub mod commands;
pub mod config;
pub mod cursor;
pub mod document;
pub mod graphemes;
pub mod keys;
pub mod state;
pub mod status_bar;
pub mod text;
pub mod theme;
pub mod view;
