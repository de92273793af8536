//! The decisions behind a global hotkey that hands the selected text to a
//! terminal editor and pastes the result back.

pub mod config;
pub mod controller;
pub mod diff;
pub mod edit_session;
pub mod elapsed;
pub mod file_watch;
pub mod hotkey;
pub mod hotkey_recorder;
pub mod keys;
pub mod keystroke;
pub mod launch;
pub mod menu_bar;
pub mod modifiers;
pub mod scripts;
pub mod terminal;
pub mod text;
