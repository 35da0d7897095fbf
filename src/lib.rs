//! Run-event detection for a Sonic 2 Absolute autosplitter: decoding of raw
//! game-state values, change-tracking snapshots over them, the start / split /
//! reset classifier, signature-based layout discovery and the attach lifecycle.
pub mod decode;
pub mod snapshot;
pub mod watchers;
pub mod classify;
pub mod layout;
pub mod resolver;
pub mod tracker;
