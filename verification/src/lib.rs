//! Timestamp token-formatting engine and shortcut descriptor parser.
//!
//! The formatting engine turns an instant (milliseconds since the Unix
//! epoch), an optional IANA timezone name and a format string holding
//! `{token}` placeholders into a rendered string. The shortcut parser turns
//! a human-readable key combination such as `Ctrl+Alt+T` into a structured
//! modifier-plus-key descriptor.

pub mod prefs;
pub mod sample;
pub mod shortcuts;
pub mod text;
pub mod timestamp;
pub mod tokens;
