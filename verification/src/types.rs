//! Shared data model: events, settings, macros and the error taxonomy.

use vstd::prelude::*;
use vstd::string::StringExecFns;

verus! {

/// Mouse button identified by a recorded or replayed click event.
#[derive(Debug, Clone, Copy, PartialEq, Eq, Structural)]
pub enum MouseButton {
    Left,
    Right,
    Middle,
}

/// Kind-specific payload of a captured event.
///
/// The `Unsupported` variant carries the kind tag of an event that reached
/// the engine (for instance out of a stored macro written by another tool)
/// but that the synthesizer has no instruction for; playback skips such an
/// event and goes on.
#[derive(Debug, Clone, PartialEq)]
pub enum EventPayload {
    MouseMove { x: i32, y: i32 },
    MouseDown { button: MouseButton },
    MouseUp { button: MouseButton },
    KeyDown { key: String },
    KeyUp { key: String },
    MouseWheel { delta_x: i64, delta_y: i64 },
    Unsupported { kind: String },
}

/// One entry of a macro: what happened, and when, in milliseconds.
///
/// Within a finished macro the timestamps are non-decreasing and start at 0.
#[derive(Debug, Clone, PartialEq)]
pub struct MacroEvent {
    pub payload: EventPayload,
    pub timestamp: u64,
}

/// What a raw event from the input source reports, with key and button
/// values already put into their canonical form.
#[derive(Debug, Clone, PartialEq)]
pub enum RawEventKind {
    MouseMove { x: i32, y: i32 },
    ButtonPress { button: MouseButton },
    ButtonRelease { button: MouseButton },
    KeyPress { key: String },
    KeyRelease { key: String },
    Wheel { delta_x: i64, delta_y: i64 },
}

/// A raw event as delivered by the input source: a kind and the moment it
/// was observed, in milliseconds since a fixed epoch.
#[derive(Debug, Clone, PartialEq)]
pub struct RawEvent {
    pub kind: RawEventKind,
    pub timestamp: u64,
}

/// Which groups of events a capture session keeps.
#[derive(Debug, Clone, Copy, PartialEq, Eq, Structural)]
pub struct RecordingSettings {
    pub record_mouse_movement: bool,
    pub record_mouse_clicks: bool,
    pub record_keyboard: bool,
}

/// How often a macro is replayed.
#[derive(Debug, Clone, Copy, PartialEq, Eq, Structural)]
pub enum RepeatMode {
    Once,
    Count,
    Infinite,
}

/// Playback configuration.
///
/// `speed_milli` is the playback speed in thousandths of the recorded pace:
/// 1000 replays the recorded timing, 2000 plays twice as fast, 500 at half
/// speed.  `repeat_count` is consulted only when `repeat_mode` is `Count`.
#[derive(Debug, Clone, Copy, PartialEq, Eq, Structural)]
pub struct PlaybackSettings {
    pub speed_milli: u64,
    pub repeat_mode: RepeatMode,
    pub repeat_count: u32,
}

impl PlaybackSettings {
    /// Playback timing is meaningful only for a positive speed.
    pub open spec fn valid(self) -> bool {
        self.speed_milli > 0
    }
}

/// The four key names that control the engine from outside; a key event
/// carrying one of them is suppressed during capture.
#[derive(Debug, Clone, PartialEq)]
pub struct HotkeySettings {
    pub record_start: String,
    pub record_stop: String,
    pub playback_start: String,
    pub playback_stop: String,
}

impl Default for HotkeySettings {
    /// The stock layout puts the four controls on F9 through F12.
    fn default() -> (r: Self)
        ensures
            r.record_start@ == "F9"@,
            r.record_stop@ == "F10"@,
            r.playback_start@ == "F11"@,
            r.playback_stop@ == "F12"@,
    {
        HotkeySettings {
            record_start: "F9".to_owned(),
            record_stop: "F10".to_owned(),
            playback_start: "F11".to_owned(),
            playback_stop: "F12".to_owned(),
        }
    }
}

/// A named, ordered sequence of timestamped input events plus its
/// recording and playback configuration.  The engine reads `events` and
/// `playback_settings` during playback and produces `events` during
/// capture; the metadata belongs to the surrounding application.  The two
/// instants are milliseconds since a fixed epoch.
#[derive(Debug, Clone, PartialEq)]
pub struct Macro {
    pub id: String,
    pub name: String,
    pub description: String,
    pub events: Vec<MacroEvent>,
    pub recording_settings: RecordingSettings,
    pub playback_settings: PlaybackSettings,
    pub created_at: u64,
    pub updated_at: u64,
}

/// Capture session failures: starting twice, or stopping what never ran.
#[derive(Debug, Clone, Copy, PartialEq, Eq, Structural)]
pub enum RecorderError {
    AlreadyRecording,
    NotRecording,
}

/// Playback failures, each carrying what a caller needs to tell the cases
/// apart: the platform refusing the synthesizer, one injected event
/// failing, or a recorded key name absent from the key table.
#[derive(Debug, Clone, PartialEq)]
pub enum PlaybackError {
    SynthesizerInit { detail: String },
    Synthesis { detail: String },
    KeyMapping { key: String },
}

impl RecorderError {
    /// A human-readable account of the failure.
    pub fn describe(&self) -> (r: String)
        ensures
            match *self {
                RecorderError::AlreadyRecording => r@ == "recording already in progress"@,
                RecorderError::NotRecording => r@ == "no active recording"@,
            },
    {
        match self {
            RecorderError::AlreadyRecording => "recording already in progress".to_owned(),
            RecorderError::NotRecording => "no active recording".to_owned(),
        }
    }
}

impl PlaybackError {
    /// A human-readable account of the failure, with what it carries.
    pub fn describe(&self) -> (r: String)
        ensures
            match *self {
                PlaybackError::SynthesizerInit { detail } => r@
                    == "failed to initialize the input synthesizer: "@ + detail@,
                PlaybackError::Synthesis { detail } => r@ == "input synthesis failed: "@ + detail@,
                PlaybackError::KeyMapping { key } => r@ == "no synthesis mapping for key: "@
                    + key@,
            },
    {
        match self {
            PlaybackError::SynthesizerInit { detail } => "failed to initialize the input synthesizer: ".to_owned().concat(
                detail.as_str(),
            ),
            PlaybackError::Synthesis { detail } => "input synthesis failed: ".to_owned().concat(
                detail.as_str(),
            ),
            PlaybackError::KeyMapping { key } => "no synthesis mapping for key: ".to_owned().concat(
                key.as_str(),
            ),
        }
    }
}

/// Timestamps never decrease along the sequence.
pub open spec fn events_sorted(s: Seq<MacroEvent>) -> bool {
    forall|i: int, j: int| 0 <= i <= j < s.len() ==> s[i].timestamp <= s[j].timestamp
}

/// Does this key name equal one of the four configured hotkeys?
pub open spec fn is_hotkey(key: Seq<char>, hotkeys: HotkeySettings) -> bool {
    ||| key == hotkeys.record_start@
    ||| key == hotkeys.record_stop@
    ||| key == hotkeys.playback_start@
    ||| key == hotkeys.playback_stop@
}

/// The event is no key event whose name equals a configured hotkey.
pub open spec fn hotkey_free(e: MacroEvent, hotkeys: HotkeySettings) -> bool {
    match e.payload {
        EventPayload::KeyDown { key } => !is_hotkey(key@, hotkeys),
        EventPayload::KeyUp { key } => !is_hotkey(key@, hotkeys),
        _ => true,
    }
}

} // verus!
