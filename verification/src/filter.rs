//! The event filter: decides, per raw event and per active settings,
//! whether it is kept, suppressed as a hotkey, or dropped.
//!
//! The decision order is fixed: an event gated out by the recording
//! settings is dropped silently; a surviving key event whose name equals a
//! configured hotkey is dropped with a notification instead of becoming a
//! macro event; everything else is kept.  Mouse events are never checked
//! against hotkeys, which are key names only.

use vstd::prelude::*;

use crate::types::EventPayload;
use crate::types::HotkeySettings;
use crate::types::MacroEvent;
use crate::types::RawEvent;
use crate::types::RawEventKind;
use crate::types::RecordingSettings;
use crate::types::is_hotkey;

verus! {

/// The filter's verdict on one raw event.
#[derive(Debug, Clone, PartialEq)]
pub enum FilterOutcome {
    /// The event survives and is to be buffered.
    Keep { event: MacroEvent },
    /// A key event carrying a configured hotkey: suppressed, with the key
    /// name for the side-channel notification.
    HotkeyIgnored { key: String },
    /// Gated out by the recording settings.
    Dropped,
}

/// Which settings flag admits an event of this kind.  Wheel events ride
/// with mouse clicks; movement and keyboard have flags of their own.
pub open spec fn spec_gated_in(kind: RawEventKind, settings: RecordingSettings) -> bool {
    match kind {
        RawEventKind::MouseMove { .. } => settings.record_mouse_movement,
        RawEventKind::ButtonPress { .. } => settings.record_mouse_clicks,
        RawEventKind::ButtonRelease { .. } => settings.record_mouse_clicks,
        RawEventKind::KeyPress { .. } => settings.record_keyboard,
        RawEventKind::KeyRelease { .. } => settings.record_keyboard,
        RawEventKind::Wheel { .. } => settings.record_mouse_clicks,
    }
}

/// The macro payload a raw event kind turns into: press becomes down,
/// release becomes up, coordinates and deltas are carried through.
pub open spec fn spec_payload_of(kind: RawEventKind) -> EventPayload {
    match kind {
        RawEventKind::MouseMove { x, y } => EventPayload::MouseMove { x, y },
        RawEventKind::ButtonPress { button } => EventPayload::MouseDown { button },
        RawEventKind::ButtonRelease { button } => EventPayload::MouseUp { button },
        RawEventKind::KeyPress { key } => EventPayload::KeyDown { key },
        RawEventKind::KeyRelease { key } => EventPayload::KeyUp { key },
        RawEventKind::Wheel { delta_x, delta_y } => EventPayload::MouseWheel { delta_x, delta_y },
    }
}

/// The whole filter decision as a function of its inputs.
pub open spec fn spec_filter(
    raw: RawEvent,
    settings: RecordingSettings,
    hotkeys: HotkeySettings,
) -> FilterOutcome {
    if !spec_gated_in(raw.kind, settings) {
        FilterOutcome::Dropped
    } else {
        match raw.kind {
            RawEventKind::KeyPress { key } => if is_hotkey(key@, hotkeys) {
                FilterOutcome::HotkeyIgnored { key }
            } else {
                FilterOutcome::Keep {
                    event: MacroEvent {
                        payload: EventPayload::KeyDown { key },
                        timestamp: raw.timestamp,
                    },
                }
            },
            RawEventKind::KeyRelease { key } => if is_hotkey(key@, hotkeys) {
                FilterOutcome::HotkeyIgnored { key }
            } else {
                FilterOutcome::Keep {
                    event: MacroEvent {
                        payload: EventPayload::KeyUp { key },
                        timestamp: raw.timestamp,
                    },
                }
            },
            _ => FilterOutcome::Keep {
                event: MacroEvent {
                    payload: spec_payload_of(raw.kind),
                    timestamp: raw.timestamp,
                },
            },
        }
    }
}

/// Does this key name equal one of the four configured hotkeys?
pub fn matches_hotkey(key: &String, hotkeys: &HotkeySettings) -> (r: bool)
    ensures
        r == is_hotkey(key@, *hotkeys),
{
    *key == hotkeys.record_start || *key == hotkeys.record_stop
        || *key == hotkeys.playback_start || *key == hotkeys.playback_stop
}

/// Decide what becomes of one raw event under the active settings.
pub fn filter_event(raw: RawEvent, settings: &RecordingSettings, hotkeys: &HotkeySettings) -> (r:
    FilterOutcome)
    ensures
        r == spec_filter(raw, *settings, *hotkeys),
{
    let RawEvent { kind, timestamp } = raw;
    match kind {
        RawEventKind::MouseMove { x, y } => {
            if settings.record_mouse_movement {
                FilterOutcome::Keep {
                    event: MacroEvent { payload: EventPayload::MouseMove { x, y }, timestamp },
                }
            } else {
                FilterOutcome::Dropped
            }
        },
        RawEventKind::ButtonPress { button } => {
            if settings.record_mouse_clicks {
                FilterOutcome::Keep {
                    event: MacroEvent { payload: EventPayload::MouseDown { button }, timestamp },
                }
            } else {
                FilterOutcome::Dropped
            }
        },
        RawEventKind::ButtonRelease { button } => {
            if settings.record_mouse_clicks {
                FilterOutcome::Keep {
                    event: MacroEvent { payload: EventPayload::MouseUp { button }, timestamp },
                }
            } else {
                FilterOutcome::Dropped
            }
        },
        RawEventKind::KeyPress { key } => {
            if !settings.record_keyboard {
                FilterOutcome::Dropped
            } else if matches_hotkey(&key, hotkeys) {
                FilterOutcome::HotkeyIgnored { key }
            } else {
                FilterOutcome::Keep {
                    event: MacroEvent { payload: EventPayload::KeyDown { key }, timestamp },
                }
            }
        },
        RawEventKind::KeyRelease { key } => {
            if !settings.record_keyboard {
                FilterOutcome::Dropped
            } else if matches_hotkey(&key, hotkeys) {
                FilterOutcome::HotkeyIgnored { key }
            } else {
                FilterOutcome::Keep {
                    event: MacroEvent { payload: EventPayload::KeyUp { key }, timestamp },
                }
            }
        },
        RawEventKind::Wheel { delta_x, delta_y } => {
            if settings.record_mouse_clicks {
                FilterOutcome::Keep {
                    event: MacroEvent {
                        payload: EventPayload::MouseWheel { delta_x, delta_y },
                        timestamp,
                    },
                }
            } else {
                FilterOutcome::Dropped
            }
        },
    }
}

} // verus!
