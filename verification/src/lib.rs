//! A capture/replay engine for timestamped global input events.
//!
//! A *macro* is an ordered sequence of timestamped input events together
//! with recording and playback configuration.  This crate holds the engine
//! behind such a tool: the event filter that decides which raw events are
//! kept during a capture session, the recorder that buffers them and
//! normalizes their timestamps, the key-name table used when the events are
//! later synthesized, and the playback scheduler that turns a macro into a
//! step-by-step plan of waits and synthesis commands under a speed factor
//! and a repeat policy.
//!
//! The engine itself performs no input/output: listening to the operating
//! system's input stream and injecting synthesized input are left to the
//! surrounding application, which feeds raw events in and carries scheduled
//! steps out as plain values.

use vstd::prelude::*;

pub mod catalog;
pub mod filter;
pub mod keymap;
pub mod player;
pub mod recorder;
pub mod types;

verus! {

/// Scale factor denominator: playback speed is given in thousandths, so a
/// speed value of 1000 plays a macro back at the recorded pace.
pub const SPEED_UNIT: u64 = 1000;

} // verus!
