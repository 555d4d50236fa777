//! Glint: the logic behind a small always-on-screen note overlay.
//!
//! The overlay shows a note, or a task list, and follows the files behind it. This
//! library holds what the overlay decides and computes; windows, timers and files belong
//! to the program around it, which hands this library plain text and gets plain values
//! back.
//!
//! - [`markup`] renders a note as inline markup; [`document`] splits it into title and
//!   body, [`events`] parses the body, [`escape`] neutralises its text.
//! - [`config`] is the configuration with its defaults; [`load`] reads it from the text of
//!   its file, [`source`] parses that text.
//! - [`reload`] decides when to reload and when a reload is worth a render; [`watch`]
//!   says which file changes count and which directories to watch, [`paths`] where the
//!   files are.
//! - [`style`], [`layout`] and [`content`] give the window its style sheet, its place on
//!   the screen and the text to show when there is no note.
//! - [`plain`] is the overlay without markup.

pub mod config;
pub mod content;
pub mod document;
pub mod escape;
pub mod events;
pub mod layout;
pub mod load;
pub mod markup;
pub mod paths;
pub mod plain;
pub mod reload;
pub mod source;
pub mod style;
pub mod text;
pub mod watch;

pub use crate::config::Config;
pub use crate::load::LoadError;
pub use crate::markup::{render, to_pango, Preset, StyleParams};
pub use crate::reload::ReloadLoop;
pub use crate::style::generate_css;
