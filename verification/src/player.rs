//! The playback scheduler: turns a finished macro into a step-by-step
//! plan of waits, synthesis commands and settle pauses.
//!
//! The scheduler is a state machine consumed one step at a time.  The
//! surrounding application drives it in a loop: it sleeps for the step's
//! wait, performs the synthesis command through the platform's input
//! synthesizer, and may stop between any two steps, which is what makes
//! the `Infinite` repeat mode cancellable.  Timing follows the recorded
//! gaps under the speed factor: the wait before event `i` is
//! `floor(gap * SPEED_UNIT / speed_milli)` milliseconds, the exact
//! integer-division reading of dividing the gap by the speed.

use vstd::prelude::*;

use crate::SPEED_UNIT;
use crate::keymap::KeySpec;
use crate::keymap::map_key_name;
use crate::keymap::spec_key_mapping;
use crate::types::EventPayload;
use crate::types::MacroEvent;
use crate::types::MouseButton;
use crate::types::PlaybackError;
use crate::types::PlaybackSettings;
use crate::types::RepeatMode;

verus! {

/// The pause between two iterations of a repeated macro, in milliseconds.
pub const SETTLE_MS: u64 = 500;

/// One instruction to the input synthesizer.  `press` distinguishes press
/// from release; a wheel event scrolls vertically by its `delta_y`.
#[derive(Debug, Clone, Copy, PartialEq, Eq, Structural)]
pub enum SynthCommand {
    MoveMouse { x: i32, y: i32 },
    Button { button: MouseButton, press: bool },
    Key { key: KeySpec, press: bool },
    Scroll { delta_y: i64 },
}

/// What playback does with one event: perform a synthesis command, or
/// skip an event kind the synthesizer does not recognize (carrying its
/// kind tag for the log).
#[derive(Debug, Clone, PartialEq)]
pub enum SynthAction {
    Perform { command: SynthCommand },
    Skip { kind: String },
}

/// One step of the playback plan.  Every step that touches an event
/// carries the wait to be slept before it.
#[derive(Debug, Clone, PartialEq)]
pub enum PlaybackStep {
    Synthesize { wait_ms: u64, command: SynthCommand },
    SkipUnsupported { wait_ms: u64, kind: String },
    Settle { wait_ms: u64 },
    Done,
}

/// The synthesis dispatch as a function of the payload.  A key name
/// outside the key table is a `KeyMapping` error; an `Unsupported` kind is
/// a skip, never an error.
pub open spec fn spec_action_of(p: EventPayload) -> Result<SynthAction, PlaybackError> {
    match p {
        EventPayload::MouseMove { x, y } => Ok(
            SynthAction::Perform { command: SynthCommand::MoveMouse { x, y } },
        ),
        EventPayload::MouseDown { button } => Ok(
            SynthAction::Perform { command: SynthCommand::Button { button, press: true } },
        ),
        EventPayload::MouseUp { button } => Ok(
            SynthAction::Perform { command: SynthCommand::Button { button, press: false } },
        ),
        EventPayload::KeyDown { key } => match spec_key_mapping(key@) {
            Some(k) => Ok(SynthAction::Perform { command: SynthCommand::Key { key: k, press: true } }),
            None => Err(PlaybackError::KeyMapping { key }),
        },
        EventPayload::KeyUp { key } => match spec_key_mapping(key@) {
            Some(k) => Ok(
                SynthAction::Perform { command: SynthCommand::Key { key: k, press: false } },
            ),
            None => Err(PlaybackError::KeyMapping { key }),
        },
        EventPayload::MouseWheel { delta_x: _, delta_y } => Ok(
            SynthAction::Perform { command: SynthCommand::Scroll { delta_y } },
        ),
        EventPayload::Unsupported { kind } => Ok(SynthAction::Skip { kind }),
    }
}

/// Decide what playback does with one event.
pub fn synthesis_action(e: &MacroEvent) -> (r: Result<SynthAction, PlaybackError>)
    ensures
        r == spec_action_of(e.payload),
{
    match &e.payload {
        EventPayload::MouseMove { x, y } => Ok(
            SynthAction::Perform { command: SynthCommand::MoveMouse { x: *x, y: *y } },
        ),
        EventPayload::MouseDown { button } => Ok(
            SynthAction::Perform { command: SynthCommand::Button { button: *button, press: true } },
        ),
        EventPayload::MouseUp { button } => Ok(
            SynthAction::Perform {
                command: SynthCommand::Button { button: *button, press: false },
            },
        ),
        EventPayload::KeyDown { key } => match map_key_name(key.as_str()) {
            Some(k) => Ok(
                SynthAction::Perform { command: SynthCommand::Key { key: k, press: true } },
            ),
            None => Err(PlaybackError::KeyMapping { key: key.clone() }),
        },
        EventPayload::KeyUp { key } => match map_key_name(key.as_str()) {
            Some(k) => Ok(
                SynthAction::Perform { command: SynthCommand::Key { key: k, press: false } },
            ),
            None => Err(PlaybackError::KeyMapping { key: key.clone() }),
        },
        EventPayload::MouseWheel { delta_x: _, delta_y } => Ok(
            SynthAction::Perform { command: SynthCommand::Scroll { delta_y: *delta_y } },
        ),
        EventPayload::Unsupported { kind } => Ok(SynthAction::Skip { kind: kind.clone() }),
    }
}

/// The wait before an event whose predecessor sits `cur - prev`
/// milliseconds earlier: the gap divided by the speed, as integer
/// division, saturating at the largest wait; an out-of-order pair waits
/// not at all.
pub open spec fn spec_wait_ms(prev: u64, cur: u64, speed_milli: u64) -> u64
    recommends
        speed_milli > 0,
{
    if cur <= prev {
        0u64
    } else {
        let scaled = (cur - prev) * (SPEED_UNIT as int) / (speed_milli as int);
        if scaled > (u64::MAX as int) {
            u64::MAX
        } else {
            scaled as u64
        }
    }
}

/// Compute the scaled wait between two timestamps.
pub fn wait_between(prev: u64, cur: u64, speed_milli: u64) -> (r: u64)
    requires
        speed_milli > 0,
    ensures
        r == spec_wait_ms(prev, cur, speed_milli),
{
    if cur <= prev {
        0
    } else {
        let delta = cur - prev;
        proof {
            assert((delta as int) * (SPEED_UNIT as int) <= (u64::MAX as int) * (SPEED_UNIT as int))
                by (nonlinear_arith)
                requires
                    0 <= delta as int <= u64::MAX as int,
            ;
        }
        let scaled: u128 = (delta as u128) * (SPEED_UNIT as u128) / (speed_milli as u128);
        if scaled > (u64::MAX as u128) {
            u64::MAX
        } else {
            scaled as u64
        }
    }
}

/// How many iterations a repeat policy asks for: `Once` is exactly one,
/// whatever `repeat_count` says; `Count` is the configured count; and
/// `Infinite` has no limit at all.
pub open spec fn spec_repeat_limit(settings: PlaybackSettings) -> Option<u32> {
    match settings.repeat_mode {
        RepeatMode::Once => Some(1u32),
        RepeatMode::Count => Some(settings.repeat_count),
        RepeatMode::Infinite => None,
    }
}

/// The playback state machine over one macro.
///
/// Steps come out in macro order, iteration after iteration, with a
/// settle pause between iterations but not after the last; a key-mapping
/// failure aborts what remains.
pub struct Player {
    events: Vec<MacroEvent>,
    speed_milli: u64,
    limit: Option<u32>,
    iterations_done: u32,
    position: usize,
    finished: bool,
}

impl Player {
    /// The event sequence being replayed.
    pub closed spec fn events(&self) -> Seq<MacroEvent> {
        self.events@
    }

    /// The playback speed, in thousandths of the recorded pace.
    pub closed spec fn speed(&self) -> u64 {
        self.speed_milli
    }

    /// How many iterations will run in all, if bounded.
    pub closed spec fn iteration_limit(&self) -> Option<u32> {
        self.limit
    }

    /// How many iterations have fully completed and been followed by a
    /// settle pause.  Tracked for bounded repeats only.
    pub closed spec fn iterations_done(&self) -> u32 {
        self.iterations_done
    }

    /// The index of the next event within the current iteration.
    pub closed spec fn position(&self) -> int {
        self.position as int
    }

    /// Has playback run to its end (or been aborted)?
    pub closed spec fn is_finished(&self) -> bool {
        self.finished
    }

    /// The speed is positive, the position stays within the events, and
    /// an unfinished bounded playback has iterations left.
    pub closed spec fn wf(&self) -> bool {
        &&& self.speed_milli > 0
        &&& self.position <= self.events@.len()
        &&& !self.finished ==> self.events@.len() > 0
        &&& !self.finished ==> match self.limit {
            Some(n) => self.iterations_done < n,
            None => true,
        }
    }

    /// Set up playback of a macro.  An empty event sequence, or a bounded
    /// repeat of zero iterations, is finished before it starts.
    pub fn new(m: crate::types::Macro) -> (r: Player)
        requires
            m.playback_settings.valid(),
        ensures
            r.wf(),
            r.events() == m.events@,
            r.speed() == m.playback_settings.speed_milli,
            r.iteration_limit() == spec_repeat_limit(m.playback_settings),
            m.playback_settings.repeat_mode == RepeatMode::Once ==> r.iteration_limit() == Some(
                1u32,
            ),
            r.iterations_done() == 0,
            r.position() == 0,
            r.is_finished() == (m.events@.len() == 0 || spec_repeat_limit(m.playback_settings)
                == Some(0u32)),
    {
        let limit = match m.playback_settings.repeat_mode {
            RepeatMode::Once => Some(1u32),
            RepeatMode::Count => Some(m.playback_settings.repeat_count),
            RepeatMode::Infinite => None,
        };
        let no_events = m.events.len() == 0;
        let zero_limit = match limit {
            Some(n) => n == 0,
            None => false,
        };
        Player {
            events: m.events,
            speed_milli: m.playback_settings.speed_milli,
            limit,
            iterations_done: 0,
            position: 0,
            finished: no_events || zero_limit,
        }
    }

    /// Produce the next step of the plan.
    ///
    /// Before the step for event `i > 0` the caller waits
    /// `spec_wait_ms(timestamp[i-1], timestamp[i], speed)` milliseconds;
    /// the first event of an iteration has no wait of its own.  At the end
    /// of an iteration either a settle pause follows and the position
    /// rewinds, or, when the bounded repeat is exhausted, the plan is
    /// done.  A key name the table cannot map aborts the plan with a
    /// `KeyMapping` error.
    pub fn next_step(&mut self) -> (r: Result<PlaybackStep, PlaybackError>)
        requires
            old(self).wf(),
        ensures
            final(self).wf(),
            final(self).events() == old(self).events(),
            final(self).speed() == old(self).speed(),
            final(self).iteration_limit() == old(self).iteration_limit(),
            old(self).is_finished() ==> r == Ok::<PlaybackStep, PlaybackError>(PlaybackStep::Done)
                && *final(self) == *old(self),
            !old(self).is_finished() && old(self).position() < old(self).events().len() ==> {
                let e = old(self).events()[old(self).position()];
                let w = if old(self).position() == 0 {
                    0u64
                } else {
                    spec_wait_ms(
                        old(self).events()[old(self).position() - 1].timestamp,
                        e.timestamp,
                        old(self).speed(),
                    )
                };
                match spec_action_of(e.payload) {
                    Ok(a) => {
                        &&& match a {
                            SynthAction::Perform { command } => r
                                == Ok::<PlaybackStep, PlaybackError>(
                                (PlaybackStep::Synthesize { wait_ms: w, command }),
                            ),
                            SynthAction::Skip { kind } => r == Ok::<PlaybackStep, PlaybackError>(
                                (PlaybackStep::SkipUnsupported { wait_ms: w, kind }),
                            ),
                        }
                        &&& final(self).position() == old(self).position() + 1
                        &&& final(self).iterations_done() == old(self).iterations_done()
                        &&& !final(self).is_finished()
                    },
                    Err(err) => {
                        &&& r == Err::<PlaybackStep, PlaybackError>(err)
                        &&& final(self).is_finished()
                    },
                }
            },
            !old(self).is_finished() && old(self).position() == old(self).events().len() ==> match old(
                self,
            ).iteration_limit() {
                Some(n) => {
                    if old(self).iterations_done() + 1 < n {
                        &&& r == Ok::<PlaybackStep, PlaybackError>(
                            (PlaybackStep::Settle { wait_ms: SETTLE_MS }),
                        )
                        &&& final(self).position() == 0
                        &&& final(self).iterations_done() == old(self).iterations_done() + 1
                        &&& !final(self).is_finished()
                    } else {
                        &&& r == Ok::<PlaybackStep, PlaybackError>(PlaybackStep::Done)
                        &&& final(self).is_finished()
                    }
                },
                None => {
                    &&& r == Ok::<PlaybackStep, PlaybackError>(
                        (PlaybackStep::Settle { wait_ms: SETTLE_MS }),
                    )
                    &&& final(self).position() == 0
                    &&& final(self).iterations_done() == old(self).iterations_done()
                    &&& !final(self).is_finished()
                },
            },
    {
        if self.finished {
            return Ok(PlaybackStep::Done);
        }
        if self.position < self.events.len() {
            let wait_ms = if self.position == 0 {
                0
            } else {
                wait_between(
                    self.events[self.position - 1].timestamp,
                    self.events[self.position].timestamp,
                    self.speed_milli,
                )
            };
            match synthesis_action(&self.events[self.position]) {
                Ok(SynthAction::Perform { command }) => {
                    self.position = self.position + 1;
                    Ok(PlaybackStep::Synthesize { wait_ms, command })
                },
                Ok(SynthAction::Skip { kind }) => {
                    self.position = self.position + 1;
                    Ok(PlaybackStep::SkipUnsupported { wait_ms, kind })
                },
                Err(err) => {
                    self.finished = true;
                    Err(err)
                },
            }
        } else {
            match self.limit {
                Some(n) => {
                    if self.iterations_done + 1 < n {
                        self.iterations_done = self.iterations_done + 1;
                        self.position = 0;
                        Ok(PlaybackStep::Settle { wait_ms: SETTLE_MS })
                    } else {
                        self.finished = true;
                        Ok(PlaybackStep::Done)
                    }
                },
                None => {
                    self.position = 0;
                    Ok(PlaybackStep::Settle { wait_ms: SETTLE_MS })
                },
            }
        }
    }
}

} // verus!
