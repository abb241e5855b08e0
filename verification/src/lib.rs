//! Translation of live MIDI performance events into batched OSC messages.
//!
//! The pipeline decodes raw MIDI bytes into structured events, tracks
//! per-channel note and pitch-bend-range state, resolves configuration-driven
//! hierarchical OSC addresses, and batches timestamped outgoing messages for
//! transmission over UDP.  Everything numeric is kept exact: pitches are
//! fixed-point rationals and host-supplied floating-point values travel
//! through as their raw bit patterns, so that the whole translation policy
//! can be verified.  Socket I/O, the OSC byte encoder and the plugin-host
//! binding live outside this crate.

pub mod midi;
pub mod midi_pitch;
pub mod decimal;
pub mod config;
pub mod osc;
pub mod sender;
pub mod plugin;
