//! The capture session: buffering filtered events and normalizing their
//! timestamps when the session stops.
//!
//! The recorder itself is a plain state machine over plain values.  The
//! surrounding application owns the lock around it and the background
//! activity that listens to the input source; every raw event observed
//! while a session is active is handed to [`Recorder::record_event`], and
//! [`Recorder::stop`] drains the buffer and returns the finished sequence.

use vstd::prelude::*;

use crate::filter::FilterOutcome;
use crate::filter::filter_event;
use crate::filter::spec_filter;
use crate::types::HotkeySettings;
use crate::types::MacroEvent;
use crate::types::RawEvent;
use crate::types::RecorderError;
use crate::types::RecordingSettings;
use crate::types::events_sorted;
use crate::types::hotkey_free;

verus! {

/// What became of one raw event handed to the recorder.
#[derive(Debug, Clone, PartialEq)]
pub enum RecordOutcome {
    /// Kept and appended to the session buffer.
    Buffered,
    /// Suppressed because its key name equals a configured hotkey; the
    /// name is carried for the side-channel warning.  Recording goes on.
    HotkeyIgnored { key: String },
    /// Gated out by the recording settings.
    Dropped,
    /// No session is active; the event is ignored.
    Inactive,
}

/// An event is buffered with its own timestamp unless that would step
/// backwards behind what is already buffered; a stray earlier stamp is
/// raised to the last buffered one, so the buffer stays ordered.
pub open spec fn spec_arrival_timestamp(ts: u64, buf: Seq<MacroEvent>) -> u64 {
    if buf.len() > 0 && ts < buf.last().timestamp {
        buf.last().timestamp
    } else {
        ts
    }
}

/// Shift one event's timestamp down by `base`, saturating at zero.
pub open spec fn spec_shift_event(e: MacroEvent, base: u64) -> MacroEvent {
    MacroEvent {
        payload: e.payload,
        timestamp: if e.timestamp >= base {
            (e.timestamp - base) as u64
        } else {
            0u64
        },
    }
}

/// Normalization: shift every timestamp so the first event sits at zero.
pub open spec fn spec_normalized(s: Seq<MacroEvent>) -> Seq<MacroEvent> {
    if s.len() == 0 {
        s
    } else {
        s.map(|i: int, e: MacroEvent| spec_shift_event(e, s[0].timestamp))
    }
}

/// Normalization keeps the length, the payloads and the order, and puts
/// the first event at time zero.
pub proof fn lemma_normalized_properties(s: Seq<MacroEvent>)
    requires
        events_sorted(s),
    ensures
        spec_normalized(s).len() == s.len(),
        events_sorted(spec_normalized(s)),
        s.len() > 0 ==> spec_normalized(s)[0].timestamp == 0,
        forall|i: int|
            0 <= i < s.len() ==> (#[trigger] spec_normalized(s)[i]).payload == s[i].payload,
{
    if s.len() > 0 {
        let n = spec_normalized(s);
        assert forall|i: int, j: int| 0 <= i <= j < n.len() implies n[i].timestamp
            <= n[j].timestamp by {
            assert(s[i].timestamp <= s[j].timestamp);
            assert(s[0].timestamp <= s[i].timestamp);
        }
        assert(s[0].timestamp <= s[0].timestamp);
    }
}

/// Shift all timestamps so the first buffered event sits at time zero.
pub fn normalize_events(events: &mut Vec<MacroEvent>)
    ensures
        final(events)@ == spec_normalized(old(events)@),
{
    if events.len() == 0 {
        return;
    }
    let ghost orig = events@;
    let base = events[0].timestamp;
    let mut i: usize = 0;
    while i < events.len()
        invariant
            events@.len() == orig.len(),
            i <= orig.len(),
            orig.len() > 0,
            base == orig[0].timestamp,
            forall|j: int| 0 <= j < i ==> events@[j] == spec_shift_event(#[trigger] orig[j], base),
            forall|j: int| i <= j < orig.len() ==> events@[j] == #[trigger] orig[j],
        decreases orig.len() - i,
    {
        let ts = events[i].timestamp;
        events[i].timestamp = if ts >= base {
            ts - base
        } else {
            0
        };
        i += 1;
    }
    proof {
        assert(events@ =~= spec_normalized(orig));
    }
}

/// The capture session state machine.
///
/// A recorder is idle or recording.  While recording it buffers every raw
/// event the filter keeps, in arrival order; the buffer always satisfies
/// the invariant [`Recorder::wf`]: timestamps non-decreasing, and no
/// buffered event carries a configured hotkey.
pub struct Recorder {
    recording: bool,
    buffer: Vec<MacroEvent>,
    settings: RecordingSettings,
    hotkeys: HotkeySettings,
}

impl Recorder {
    /// Is a capture session active?
    pub closed spec fn is_active(&self) -> bool {
        self.recording
    }

    /// What the session has buffered so far.
    pub closed spec fn buffered(&self) -> Seq<MacroEvent> {
        self.buffer@
    }

    /// The recording settings this recorder was created with.
    pub closed spec fn session_settings(&self) -> RecordingSettings {
        self.settings
    }

    /// The hotkeys the running session suppresses.
    pub closed spec fn session_hotkeys(&self) -> HotkeySettings {
        self.hotkeys
    }

    /// The buffer is ordered by timestamp and free of hotkey events.
    pub closed spec fn wf(&self) -> bool {
        &&& events_sorted(self.buffer@)
        &&& forall|i: int|
            0 <= i < self.buffer@.len() ==> hotkey_free(
                #[trigger] self.buffer@[i],
                self.hotkeys,
            )
    }

    /// A fresh, idle recorder with an empty buffer.
    pub fn new(settings: RecordingSettings) -> (r: Recorder)
        ensures
            r.wf(),
            !r.is_active(),
            r.buffered() == Seq::<MacroEvent>::empty(),
            r.session_settings() == settings,
    {
        Recorder {
            recording: false,
            buffer: Vec::new(),
            settings,
            hotkeys: HotkeySettings::default(),
        }
    }

    /// Pure state query: is a session active?
    pub fn is_recording(&self) -> (r: bool)
        ensures
            r == self.is_active(),
    {
        self.recording
    }

    /// Begin a capture session suppressing the given hotkeys.
    ///
    /// Starting while a session is already active changes nothing and
    /// reports `AlreadyRecording`; otherwise the buffer is cleared and the
    /// recorder transitions to recording.
    pub fn start(&mut self, hotkeys: HotkeySettings) -> (r: Result<(), RecorderError>)
        requires
            old(self).wf(),
        ensures
            final(self).wf(),
            old(self).is_active() ==> r == Err::<(), RecorderError>(RecorderError::AlreadyRecording)
                && *final(self) == *old(self),
            !old(self).is_active() ==> {
                &&& r == Ok::<(), RecorderError>(())
                &&& final(self).is_active()
                &&& final(self).buffered() == Seq::<MacroEvent>::empty()
                &&& final(self).session_hotkeys() == hotkeys
                &&& final(self).session_settings() == old(self).session_settings()
            },
    {
        if self.recording {
            return Err(RecorderError::AlreadyRecording);
        }
        self.recording = true;
        self.hotkeys = hotkeys;
        self.buffer.clear();
        Ok(())
    }

    /// Hand one raw event to the running session.
    ///
    /// While idle every event is ignored.  While recording, the event
    /// filter decides: kept events are appended in arrival order (with a
    /// stray backwards timestamp raised, see [`spec_arrival_timestamp`]),
    /// hotkey events are suppressed with a notification, gated-out events
    /// are dropped silently.  The session state never changes here.
    pub fn record_event(&mut self, raw: RawEvent) -> (r: RecordOutcome)
        requires
            old(self).wf(),
        ensures
            final(self).wf(),
            final(self).is_active() == old(self).is_active(),
            final(self).session_settings() == old(self).session_settings(),
            final(self).session_hotkeys() == old(self).session_hotkeys(),
            !old(self).is_active() ==> *final(self) == *old(self) && r == RecordOutcome::Inactive,
            old(self).is_active() ==> match spec_filter(
                raw,
                old(self).session_settings(),
                old(self).session_hotkeys(),
            ) {
                FilterOutcome::Keep { event } => {
                    &&& r == RecordOutcome::Buffered
                    &&& final(self).buffered() == old(self).buffered().push(
                        MacroEvent {
                            payload: event.payload,
                            timestamp: spec_arrival_timestamp(
                                event.timestamp,
                                old(self).buffered(),
                            ),
                        },
                    )
                },
                FilterOutcome::HotkeyIgnored { key } => r == (RecordOutcome::HotkeyIgnored { key })
                    && final(self).buffered() == old(self).buffered(),
                FilterOutcome::Dropped => r == RecordOutcome::Dropped && final(self).buffered()
                    == old(self).buffered(),
            },
    {
        if !self.recording {
            return RecordOutcome::Inactive;
        }
        let outcome = filter_event(raw, &self.settings, &self.hotkeys);
        match outcome {
            FilterOutcome::Keep { event } => {
                let MacroEvent { payload, timestamp } = event;
                let arrival = if self.buffer.len() > 0 {
                    let last = self.buffer[self.buffer.len() - 1].timestamp;
                    if timestamp < last {
                        last
                    } else {
                        timestamp
                    }
                } else {
                    timestamp
                };
                self.buffer.push(MacroEvent { payload, timestamp: arrival });
                proof {
                    let buf = self.buffer@;
                    assert forall|i: int, j: int| 0 <= i <= j < buf.len() implies buf[i].timestamp
                        <= buf[j].timestamp by {
                        if j < buf.len() - 1 {
                            assert(old(self).buffered()[i].timestamp
                                <= old(self).buffered()[j].timestamp);
                        } else if i < j {
                            assert(old(self).buffered()[i].timestamp <= old(
                                self,
                            ).buffered().last().timestamp);
                        }
                    }
                }
                RecordOutcome::Buffered
            },
            FilterOutcome::HotkeyIgnored { key } => RecordOutcome::HotkeyIgnored { key },
            FilterOutcome::Dropped => RecordOutcome::Dropped,
        }
    }

    /// End the session and return the normalized sequence.
    ///
    /// Stopping while idle changes nothing and reports `NotRecording`.
    /// Otherwise the recorder transitions to idle and the buffer is
    /// drained, its timestamps shifted so the first event sits at zero.
    /// The result is ordered, starts at zero when non-empty, and holds no
    /// event carrying a configured hotkey; an empty session yields an
    /// empty sequence without error.
    pub fn stop(&mut self) -> (r: Result<Vec<MacroEvent>, RecorderError>)
        requires
            old(self).wf(),
        ensures
            final(self).wf(),
            final(self).session_settings() == old(self).session_settings(),
            final(self).session_hotkeys() == old(self).session_hotkeys(),
            !old(self).is_active() ==> r == Err::<Vec<MacroEvent>, RecorderError>(
                RecorderError::NotRecording,
            ) && *final(self) == *old(self),
            old(self).is_active() ==> {
                &&& !final(self).is_active()
                &&& final(self).buffered() == Seq::<MacroEvent>::empty()
                &&& r is Ok
                &&& r->Ok_0@ == spec_normalized(old(self).buffered())
            },
            old(self).is_active() ==> events_sorted(r->Ok_0@) && (r->Ok_0@.len() > 0
                ==> r->Ok_0@[0].timestamp == 0),
            old(self).is_active() && old(self).buffered().len() == 0 ==> r is Ok
                && r->Ok_0@.len() == 0,
            old(self).is_active() ==> forall|i: int|
                0 <= i < r->Ok_0@.len() ==> hotkey_free(
                    #[trigger] r->Ok_0@[i],
                    old(self).session_hotkeys(),
                ),
    {
        if !self.recording {
            return Err(RecorderError::NotRecording);
        }
        self.recording = false;
        let mut drained: Vec<MacroEvent> = Vec::new();
        core::mem::swap(&mut self.buffer, &mut drained);
        normalize_events(&mut drained);
        proof {
            lemma_normalized_properties(old(self).buffered());
            assert forall|i: int| 0 <= i < drained@.len() implies hotkey_free(
                #[trigger] drained@[i],
                old(self).session_hotkeys(),
            ) by {
                assert(hotkey_free(old(self).buffered()[i], old(self).session_hotkeys()));
                assert(drained@[i].payload == old(self).buffered()[i].payload);
            }
        }
        Ok(drained)
    }
}

} // verus!
