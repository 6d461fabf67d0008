use macro_replay::recorder::RecordOutcome;
use macro_replay::recorder::Recorder;
use macro_replay::types::EventPayload;
use macro_replay::types::HotkeySettings;
use macro_replay::types::RawEvent;
use macro_replay::types::RawEventKind;
use macro_replay::types::RecorderError;
use macro_replay::types::RecordingSettings;

fn all_on() -> RecordingSettings {
    RecordingSettings {
        record_mouse_movement: true,
        record_mouse_clicks: true,
        record_keyboard: true,
    }
}

fn key_press(key: &str, timestamp: u64) -> RawEvent {
    RawEvent {
        kind: RawEventKind::KeyPress { key: key.to_string() },
        timestamp,
    }
}

fn mouse_move(x: i32, y: i32, timestamp: u64) -> RawEvent {
    RawEvent {
        kind: RawEventKind::MouseMove { x, y },
        timestamp,
    }
}

#[test]
fn empty_session_stops_with_an_empty_sequence() {
    let mut recorder = Recorder::new(all_on());
    assert_eq!(recorder.start(HotkeySettings::default()), Ok(()));
    let events = recorder.stop().expect("an active session stops cleanly");
    assert!(events.is_empty());
}

#[test]
fn stop_while_idle_reports_not_recording() {
    let mut recorder = Recorder::new(all_on());
    assert_eq!(recorder.stop(), Err(RecorderError::NotRecording));
}

#[test]
fn starting_twice_reports_already_recording_and_keeps_the_buffer() {
    let mut recorder = Recorder::new(all_on());
    assert_eq!(recorder.start(HotkeySettings::default()), Ok(()));
    assert_eq!(recorder.record_event(key_press("a", 100)), RecordOutcome::Buffered);
    assert_eq!(
        recorder.start(HotkeySettings::default()),
        Err(RecorderError::AlreadyRecording)
    );
    assert!(recorder.is_recording());
    let events = recorder.stop().expect("the session is still active");
    assert_eq!(events.len(), 1);
    assert_eq!(
        events[0].payload,
        EventPayload::KeyDown { key: "a".to_string() }
    );
}

#[test]
fn events_are_ignored_while_idle() {
    let mut recorder = Recorder::new(all_on());
    assert_eq!(recorder.record_event(key_press("a", 1)), RecordOutcome::Inactive);
    assert_eq!(recorder.stop(), Err(RecorderError::NotRecording));
}

#[test]
fn timestamps_are_normalized_to_start_at_zero() {
    let mut recorder = Recorder::new(all_on());
    recorder.start(HotkeySettings::default()).unwrap();
    recorder.record_event(mouse_move(0, 0, 1000));
    recorder.record_event(mouse_move(1, 1, 1500));
    recorder.record_event(mouse_move(2, 2, 1500));
    recorder.record_event(mouse_move(3, 3, 2200));
    let events = recorder.stop().unwrap();
    let stamps: Vec<u64> = events.iter().map(|e| e.timestamp).collect();
    assert_eq!(stamps, vec![0, 500, 500, 1200]);
    for pair in events.windows(2) {
        assert!(pair[0].timestamp <= pair[1].timestamp);
    }
}

#[test]
fn a_stray_backwards_timestamp_is_raised() {
    let mut recorder = Recorder::new(all_on());
    recorder.start(HotkeySettings::default()).unwrap();
    recorder.record_event(mouse_move(0, 0, 500));
    recorder.record_event(mouse_move(1, 1, 300));
    let events = recorder.stop().unwrap();
    let stamps: Vec<u64> = events.iter().map(|e| e.timestamp).collect();
    assert_eq!(stamps, vec![0, 0]);
}

#[test]
fn hotkey_press_never_reaches_the_buffer_and_capture_goes_on() {
    let mut recorder = Recorder::new(all_on());
    recorder.start(HotkeySettings::default()).unwrap();
    assert_eq!(recorder.record_event(key_press("a", 100)), RecordOutcome::Buffered);
    assert_eq!(
        recorder.record_event(key_press("F9", 200)),
        RecordOutcome::HotkeyIgnored { key: "F9".to_string() }
    );
    assert!(recorder.is_recording());
    assert_eq!(recorder.record_event(key_press("b", 300)), RecordOutcome::Buffered);
    let events = recorder.stop().unwrap();
    assert_eq!(events.len(), 2);
    assert_eq!(
        events[0].payload,
        EventPayload::KeyDown { key: "a".to_string() }
    );
    assert_eq!(
        events[1].payload,
        EventPayload::KeyDown { key: "b".to_string() }
    );
    for e in &events {
        assert_ne!(e.payload, EventPayload::KeyDown { key: "F9".to_string() });
    }
}

#[test]
fn gated_out_events_are_dropped_silently() {
    let mut settings = all_on();
    settings.record_mouse_movement = false;
    let mut recorder = Recorder::new(settings);
    recorder.start(HotkeySettings::default()).unwrap();
    assert_eq!(recorder.record_event(mouse_move(5, 5, 10)), RecordOutcome::Dropped);
    let events = recorder.stop().unwrap();
    assert!(events.is_empty());
}

#[test]
fn a_new_session_starts_fresh() {
    let mut recorder = Recorder::new(all_on());
    recorder.start(HotkeySettings::default()).unwrap();
    recorder.record_event(key_press("a", 10));
    let first = recorder.stop().unwrap();
    assert_eq!(first.len(), 1);
    assert!(!recorder.is_recording());
    recorder.start(HotkeySettings::default()).unwrap();
    let second = recorder.stop().unwrap();
    assert!(second.is_empty());
}
