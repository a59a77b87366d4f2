//! Core of a native speech-synthesis plugin: a runtime that installs a large
//! neural text-to-speech model, turns text into timestamp-aligned audio,
//! caches results by content hash, and supports cooperative cancellation.
//!
//! The modules here hold the decision logic and data transformations of the
//! subsystem; all file, network and engine I/O is driven by a thin shell
//! around this library that hands plain values in and out.

pub mod dispatch;
pub mod errors;
pub mod hashing;
pub mod install;
pub mod media;
pub mod paths;
pub mod progress;
pub mod registry;
pub mod segmentation;
pub mod state;
pub mod stats;
pub mod strutil;
pub mod synthesis;
pub mod text;
pub mod vault;
pub mod voice;
pub mod watch;

use vstd::prelude::*;

verus! {

/// The plugin descriptor for the speech-synthesis capability.
pub struct TtsPlugin;

impl TtsPlugin {
    /// Identifier under which the plugin registers itself.
    pub fn id(&self) -> (r: &'static str)
        ensures
            r@ == "core.tts"@,
    {
        "core.tts"
    }
}

} // verus!

