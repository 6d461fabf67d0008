use macro_replay::filter::FilterOutcome;
use macro_replay::filter::filter_event;
use macro_replay::filter::matches_hotkey;
use macro_replay::types::EventPayload;
use macro_replay::types::HotkeySettings;
use macro_replay::types::MacroEvent;
use macro_replay::types::MouseButton;
use macro_replay::types::RawEvent;
use macro_replay::types::RawEventKind;
use macro_replay::types::RecordingSettings;

fn all_on() -> RecordingSettings {
    RecordingSettings {
        record_mouse_movement: true,
        record_mouse_clicks: true,
        record_keyboard: true,
    }
}

fn default_hotkeys() -> HotkeySettings {
    HotkeySettings::default()
}

#[test]
fn movement_is_gated_by_its_flag() {
    let raw = RawEvent {
        kind: RawEventKind::MouseMove { x: 10, y: 20 },
        timestamp: 7,
    };
    let mut settings = all_on();
    settings.record_mouse_movement = false;
    assert_eq!(
        filter_event(raw.clone(), &settings, &default_hotkeys()),
        FilterOutcome::Dropped
    );
    assert_eq!(
        filter_event(raw, &all_on(), &default_hotkeys()),
        FilterOutcome::Keep {
            event: MacroEvent {
                payload: EventPayload::MouseMove { x: 10, y: 20 },
                timestamp: 7,
            },
        }
    );
}

#[test]
fn clicks_are_gated_by_their_flag() {
    let press = RawEvent {
        kind: RawEventKind::ButtonPress { button: MouseButton::Right },
        timestamp: 3,
    };
    let release = RawEvent {
        kind: RawEventKind::ButtonRelease { button: MouseButton::Right },
        timestamp: 4,
    };
    let mut settings = all_on();
    settings.record_mouse_clicks = false;
    assert_eq!(
        filter_event(press.clone(), &settings, &default_hotkeys()),
        FilterOutcome::Dropped
    );
    assert_eq!(
        filter_event(release.clone(), &settings, &default_hotkeys()),
        FilterOutcome::Dropped
    );
    assert_eq!(
        filter_event(press, &all_on(), &default_hotkeys()),
        FilterOutcome::Keep {
            event: MacroEvent {
                payload: EventPayload::MouseDown { button: MouseButton::Right },
                timestamp: 3,
            },
        }
    );
    assert_eq!(
        filter_event(release, &all_on(), &default_hotkeys()),
        FilterOutcome::Keep {
            event: MacroEvent {
                payload: EventPayload::MouseUp { button: MouseButton::Right },
                timestamp: 4,
            },
        }
    );
}

#[test]
fn wheel_rides_with_the_clicks_flag() {
    let raw = RawEvent {
        kind: RawEventKind::Wheel { delta_x: 1, delta_y: -3 },
        timestamp: 11,
    };
    let mut settings = all_on();
    settings.record_mouse_clicks = false;
    assert_eq!(
        filter_event(raw.clone(), &settings, &default_hotkeys()),
        FilterOutcome::Dropped
    );
    assert_eq!(
        filter_event(raw, &all_on(), &default_hotkeys()),
        FilterOutcome::Keep {
            event: MacroEvent {
                payload: EventPayload::MouseWheel { delta_x: 1, delta_y: -3 },
                timestamp: 11,
            },
        }
    );
}

#[test]
fn keyboard_is_gated_by_its_flag() {
    let raw = RawEvent {
        kind: RawEventKind::KeyPress { key: "a".to_string() },
        timestamp: 5,
    };
    let mut settings = all_on();
    settings.record_keyboard = false;
    assert_eq!(
        filter_event(raw.clone(), &settings, &default_hotkeys()),
        FilterOutcome::Dropped
    );
    assert_eq!(
        filter_event(raw, &all_on(), &default_hotkeys()),
        FilterOutcome::Keep {
            event: MacroEvent {
                payload: EventPayload::KeyDown { key: "a".to_string() },
                timestamp: 5,
            },
        }
    );
}

#[test]
fn hotkey_press_is_suppressed_with_its_name() {
    let raw = RawEvent {
        kind: RawEventKind::KeyPress { key: "F9".to_string() },
        timestamp: 42,
    };
    assert_eq!(
        filter_event(raw, &all_on(), &default_hotkeys()),
        FilterOutcome::HotkeyIgnored { key: "F9".to_string() }
    );
}

#[test]
fn hotkey_release_is_suppressed_too() {
    let raw = RawEvent {
        kind: RawEventKind::KeyRelease { key: "F12".to_string() },
        timestamp: 43,
    };
    assert_eq!(
        filter_event(raw, &all_on(), &default_hotkeys()),
        FilterOutcome::HotkeyIgnored { key: "F12".to_string() }
    );
}

#[test]
fn mouse_events_are_never_checked_against_hotkeys() {
    // Even a hotkey configuration that happens to spell a button name
    // leaves mouse events alone: hotkeys are key names only.
    let hotkeys = HotkeySettings {
        record_start: "Left".to_string(),
        record_stop: "F10".to_string(),
        playback_start: "F11".to_string(),
        playback_stop: "F12".to_string(),
    };
    let raw = RawEvent {
        kind: RawEventKind::ButtonPress { button: MouseButton::Left },
        timestamp: 1,
    };
    assert_eq!(
        filter_event(raw, &all_on(), &hotkeys),
        FilterOutcome::Keep {
            event: MacroEvent {
                payload: EventPayload::MouseDown { button: MouseButton::Left },
                timestamp: 1,
            },
        }
    );
}

#[test]
fn each_of_the_four_hotkeys_matches() {
    let hotkeys = default_hotkeys();
    assert!(matches_hotkey(&"F9".to_string(), &hotkeys));
    assert!(matches_hotkey(&"F10".to_string(), &hotkeys));
    assert!(matches_hotkey(&"F11".to_string(), &hotkeys));
    assert!(matches_hotkey(&"F12".to_string(), &hotkeys));
    assert!(!matches_hotkey(&"F8".to_string(), &hotkeys));
    assert!(!matches_hotkey(&"a".to_string(), &hotkeys));
}

#[test]
fn default_hotkeys_sit_on_the_function_row() {
    let hotkeys = default_hotkeys();
    assert_eq!(hotkeys.record_start, "F9");
    assert_eq!(hotkeys.record_stop, "F10");
    assert_eq!(hotkeys.playback_start, "F11");
    assert_eq!(hotkeys.playback_stop, "F12");
}
