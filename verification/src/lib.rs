//! Playback transport controller for a queue-driven music player.
//!
//! The controller keeps an optimistic, command-driven model of playback: it
//! tracks the active track, advances through a queue on a one-second tick
//! clock, and mirrors every audible action as a command for an independent
//! audio engine plus optional presence snapshots. It never observes the
//! engine's internal state; everything it promises is stated over its own
//! fields and the commands it emits.

pub mod control_bar;
pub mod format;
pub mod json;
pub mod playback;
pub mod queue;
pub mod rpc;
pub mod state;
pub mod track;
pub mod ui;
