//! The decision core of the Equibop stream deck plugin: the bridge protocol's
//! message types, the caches filled from the Equibop client, the plugin's
//! shared state machine, and what each deck action does when pressed.
//!
//! Everything that touches the network, the OpenDeck host or floating-point
//! volume arithmetic is performed by the caller; the functions here decide
//! what to send, what to cache and which buttons to update.

pub mod protocol;
pub mod text;
pub mod sorting;
pub mod cache;
pub mod outcome;
pub mod settings;
pub mod state;
pub mod actions;
