//! Decision logic of a push-to-talk dictation tool: recording phases,
//! hotkey chords, model downloads, the external trigger protocol,
//! clipboard and speaker-mute helpers.
use vstd::prelude::*;

pub mod text;
pub mod keyed;
pub mod cancel;
pub mod downloads;
pub mod trigger;
pub mod mute;
pub mod pwdump;
pub mod clipboard;
pub mod daemon;
pub mod recording;
pub mod hotkey;
pub mod tray;
pub mod audio;
pub mod clock;
pub mod progress;
pub mod shortcut;
pub mod runtime;
pub mod backend;
pub mod whisper;
pub mod history;
pub mod config;
pub mod signals;
pub mod digest;
pub mod models;
pub mod draft;
pub mod x11keys;
pub mod cue;
pub mod socket;
pub mod delivery;
pub mod devices;
pub mod cache;
pub mod status_page;
pub mod recorder;
pub mod chord;
pub mod runtime_config;
pub mod evdev;
pub mod settings_rows;

verus! {
}
