//! Decisions and data handling of an osu!-style cursor overlay for Windows.

pub mod audio;
pub mod autostart;
pub mod bytes;
pub mod choices;
pub mod log;
pub mod number;
pub mod overlay;
pub mod samples;
pub mod settings;
pub mod settings_ui;
pub mod system_cursor;
pub mod text;
pub mod tray;
pub mod wave;
