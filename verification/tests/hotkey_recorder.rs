use helix_anywhere::config::HotkeyConfig;
use helix_anywhere::hotkey::{HotkeyListener, TapDecision};
use helix_anywhere::hotkey_recorder::{
    candidate_chord, is_reserved_hotkey, reserved_command_key, HotkeyRecorder, RecorderAction,
    RecorderDecision, RECORDING_SLICE_MS, RECORDING_TIMEOUT_MS,
};
use helix_anywhere::modifiers::{FLAG_ALTERNATE, FLAG_COMMAND, FLAG_CONTROL, FLAG_SHIFT};

fn chord(modifiers: &[&str], key: &str) -> HotkeyConfig {
    HotkeyConfig {
        modifiers: modifiers.iter().map(|m| m.to_string()).collect(),
        key: key.to_string(),
    }
}

#[test]
fn a_key_with_modifiers_gives_a_chord() {
    assert_eq!(
        candidate_chord(0x29, FLAG_COMMAND | FLAG_SHIFT),
        Some(chord(&["cmd", "shift"], "semicolon"))
    );
    assert_eq!(candidate_chord(0x00, FLAG_CONTROL), Some(chord(&["ctrl"], "a")));
    assert_eq!(
        candidate_chord(0x31, FLAG_CONTROL | FLAG_ALTERNATE | FLAG_SHIFT | FLAG_COMMAND),
        Some(chord(&["cmd", "shift", "alt", "ctrl"], "space"))
    );
}

#[test]
fn untracked_bits_do_not_show_in_a_recorded_chord() {
    assert_eq!(candidate_chord(0x0E, FLAG_ALTERNATE | 0x100 | 0x0001_0000), Some(chord(&["alt"], "e")));
}

#[test]
fn a_key_without_a_modifier_gives_no_chord() {
    assert_eq!(candidate_chord(0x29, 0), None);
    assert_eq!(candidate_chord(0x29, 0x100), None);
    assert_eq!(candidate_chord(0x29, 0x0001_0000), None);
}

#[test]
fn a_modifier_key_alone_gives_no_chord() {
    for key_code in 54..=63u16 {
        assert_eq!(candidate_chord(key_code, FLAG_COMMAND), None, "{}", key_code);
        assert_eq!(candidate_chord(key_code, FLAG_SHIFT | FLAG_CONTROL), None, "{}", key_code);
    }
    assert_eq!(candidate_chord(53, FLAG_COMMAND), Some(chord(&["cmd"], "escape")));
}

#[test]
fn a_key_outside_the_table_gives_no_chord() {
    assert_eq!(candidate_chord(0x0A, FLAG_COMMAND), None);
    assert_eq!(candidate_chord(0x40, FLAG_COMMAND), None);
    assert_eq!(candidate_chord(0x7A, FLAG_COMMAND | FLAG_SHIFT), None);
}

#[test]
fn a_recorded_chord_is_matched_by_the_event_that_gave_it() {
    for key_code in 0..0x40u16 {
        for bits in 1..16u64 {
            let flags = (bits << 17) | 0x100;
            if let Some(recorded) = candidate_chord(key_code, flags) {
                assert!(!recorded.modifiers.is_empty());
                let listener = HotkeyListener::from_config(&recorded).unwrap();
                assert_eq!(listener.key_code(), key_code);
                assert_eq!(listener.modifiers(), bits << 17);
                assert_eq!(listener.on_event(true, key_code, flags), TapDecision::Consume);
            }
        }
    }
}

#[test]
fn the_first_chord_is_recorded_and_later_events_pass() {
    let mut recorder = HotkeyRecorder::new();
    assert!(!recorder.is_recorded());
    // Key-up events, bare keys, modifier keys and unknown keys pass.
    assert_eq!(recorder.on_event(false, 0x29, FLAG_COMMAND), RecorderDecision::PassThrough);
    assert_eq!(recorder.on_event(true, 0x29, 0), RecorderDecision::PassThrough);
    assert_eq!(recorder.on_event(true, 55, FLAG_COMMAND), RecorderDecision::PassThrough);
    assert_eq!(recorder.on_event(true, 0x0A, FLAG_COMMAND), RecorderDecision::PassThrough);
    assert!(!recorder.is_recorded());
    let decision = recorder.on_event(true, 0x28, FLAG_COMMAND | FLAG_ALTERNATE);
    assert_eq!(decision, RecorderDecision::Record(chord(&["cmd", "alt"], "k")));
    assert_eq!(decision.tap_decision(), TapDecision::Consume);
    assert!(recorder.is_recorded());
    let decision = recorder.on_event(true, 0x28, FLAG_COMMAND | FLAG_ALTERNATE);
    assert_eq!(decision, RecorderDecision::PassThrough);
    assert_eq!(decision.tap_decision(), TapDecision::PassThrough);
    assert_eq!(recorder.on_event(true, 0x00, FLAG_CONTROL), RecorderDecision::PassThrough);
    assert!(recorder.is_recorded());
}

#[test]
fn a_recording_times_out_after_more_than_ten_seconds() {
    assert_eq!(RECORDING_TIMEOUT_MS, 10_000);
    assert_eq!(RECORDING_SLICE_MS, 100);
    let recorder = HotkeyRecorder::new();
    assert_eq!(recorder.next_action(0), RecorderAction::Service { millis: 100 });
    assert_eq!(recorder.next_action(9_999), RecorderAction::Service { millis: 100 });
    assert_eq!(recorder.next_action(10_000), RecorderAction::Service { millis: 100 });
    assert_eq!(recorder.next_action(10_001), RecorderAction::TimeOut);
    assert_eq!(recorder.next_action(u64::MAX), RecorderAction::TimeOut);
}

#[test]
fn a_recorded_chord_ends_the_recording_whatever_the_time() {
    let mut recorder = HotkeyRecorder::new();
    recorder.on_event(true, 0x28, FLAG_COMMAND);
    assert_eq!(recorder.next_action(0), RecorderAction::Finish);
    assert_eq!(recorder.next_action(10_001), RecorderAction::Finish);
}

#[test]
fn command_alone_with_six_keys_is_reserved() {
    assert_eq!(is_reserved_hotkey(&chord(&["cmd"], "q")), Some("Cmd+Q is reserved for Quit"));
    assert_eq!(
        is_reserved_hotkey(&chord(&["cmd"], "w")),
        Some("Cmd+W is reserved for Close Window")
    );
    assert_eq!(is_reserved_hotkey(&chord(&["cmd"], "h")), Some("Cmd+H is reserved for Hide"));
    assert_eq!(is_reserved_hotkey(&chord(&["cmd"], "m")), Some("Cmd+M is reserved for Minimize"));
    assert_eq!(
        is_reserved_hotkey(&chord(&["cmd"], "tab")),
        Some("Cmd+Tab is reserved for App Switcher")
    );
    assert_eq!(
        is_reserved_hotkey(&chord(&["cmd"], "space")),
        Some("Cmd+Space is reserved for Spotlight")
    );
}

#[test]
fn the_reserved_key_is_read_without_regard_to_case() {
    assert_eq!(is_reserved_hotkey(&chord(&["command"], "Q")), Some("Cmd+Q is reserved for Quit"));
    assert_eq!(
        is_reserved_hotkey(&chord(&["cmd"], "SPACE")),
        Some("Cmd+Space is reserved for Spotlight")
    );
    assert_eq!(reserved_command_key("Q"), None);
    assert_eq!(reserved_command_key("q"), Some("Cmd+Q is reserved for Quit"));
}

#[test]
fn other_chords_are_free() {
    assert_eq!(is_reserved_hotkey(&chord(&["cmd"], "e")), None);
    assert_eq!(is_reserved_hotkey(&chord(&["cmd"], "semicolon")), None);
    assert_eq!(is_reserved_hotkey(&chord(&["cmd", "shift"], "q")), None);
    assert_eq!(is_reserved_hotkey(&chord(&["cmd", "cmd"], "q")), None);
    assert_eq!(is_reserved_hotkey(&chord(&["ctrl"], "q")), None);
    assert_eq!(is_reserved_hotkey(&chord(&[], "q")), None);
    // The modifier names are taken as written.
    assert_eq!(is_reserved_hotkey(&chord(&["Cmd"], "q")), None);
    assert_eq!(is_reserved_hotkey(&chord(&["CMD"], "tab")), None);
}
