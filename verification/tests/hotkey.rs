use helix_anywhere::config::HotkeyConfig;
use helix_anywhere::hotkey::{
    format_hotkey_display, hotkey_display_from, key_code_of_field, matches_chord, tap_decision, HotkeyError,
    HotkeyListener, TapDecision,
};
use helix_anywhere::keys::{key_code_from_string, key_label};
use helix_anywhere::modifiers::{
    modifiers_from_config, FLAG_ALTERNATE, FLAG_COMMAND, FLAG_CONTROL, FLAG_SHIFT,
};

fn chord(modifiers: &[&str], key: &str) -> HotkeyConfig {
    HotkeyConfig {
        modifiers: modifiers.iter().map(|m| m.to_string()).collect(),
        key: key.to_string(),
    }
}

/// What two handlers in a row see of an event: the tap first, then, unless
/// the tap consumes the event, the handler behind it.
fn deliver(listener: &HotkeyListener, key: u16, flags: u64, fired: &mut u32, seen: &mut u32) {
    match listener.on_event(true, key, flags) {
        TapDecision::Consume => *fired += 1,
        TapDecision::PassThrough => *seen += 1,
    }
}

#[test]
fn a_superset_of_the_modifiers_does_not_match() {
    let key = key_code_from_string("k").unwrap();
    let modifiers = FLAG_COMMAND | FLAG_SHIFT;
    assert!(!matches_chord(key, FLAG_COMMAND | FLAG_SHIFT | FLAG_CONTROL, key, modifiers));
    assert!(!matches_chord(key, FLAG_COMMAND | FLAG_SHIFT | FLAG_ALTERNATE, key, modifiers));
}

#[test]
fn a_subset_of_the_modifiers_does_not_match() {
    let key = key_code_from_string("k").unwrap();
    let modifiers = FLAG_COMMAND | FLAG_SHIFT;
    assert!(!matches_chord(key, FLAG_COMMAND, key, modifiers));
    assert!(!matches_chord(key, FLAG_SHIFT, key, modifiers));
    assert!(!matches_chord(key, 0, key, modifiers));
}

#[test]
fn the_exact_chord_matches_and_is_consumed_once() {
    let listener = HotkeyListener::from_config(&chord(&["cmd", "shift"], "k")).unwrap();
    let key = key_code_from_string("k").unwrap();
    let mut fired = 0;
    let mut seen = 0;
    deliver(&listener, key, FLAG_COMMAND | FLAG_SHIFT, &mut fired, &mut seen);
    assert_eq!(fired, 1);
    assert_eq!(seen, 0);
    deliver(&listener, key, FLAG_COMMAND | FLAG_SHIFT | FLAG_CONTROL, &mut fired, &mut seen);
    assert_eq!(fired, 1);
    assert_eq!(seen, 1);
}

#[test]
fn another_key_with_the_same_modifiers_passes() {
    let key = key_code_from_string("k").unwrap();
    let other = key_code_from_string("j").unwrap();
    assert!(!matches_chord(other, FLAG_COMMAND | FLAG_SHIFT, key, FLAG_COMMAND | FLAG_SHIFT));
}

#[test]
fn bits_outside_the_mask_are_ignored_on_both_sides() {
    let key = 0x29;
    let modifiers = FLAG_COMMAND | FLAG_SHIFT;
    // Caps lock, the numeric pad and the low device bits are not tracked.
    assert!(matches_chord(key, modifiers | 0x0001_0000, key, modifiers));
    assert!(matches_chord(key, modifiers | 0x0020_0000 | 0x100, key, modifiers));
    assert!(matches_chord(key, modifiers, key, modifiers | 0x0080_0000));
    assert!(matches_chord(key, 0x100, key, 0));
}

#[test]
fn only_key_down_events_are_consumed() {
    let key = 0x29;
    let modifiers = FLAG_COMMAND | FLAG_SHIFT;
    assert_eq!(tap_decision(true, key, modifiers, key, modifiers), TapDecision::Consume);
    assert_eq!(tap_decision(false, key, modifiers, key, modifiers), TapDecision::PassThrough);
    assert_eq!(tap_decision(true, key, FLAG_COMMAND, key, modifiers), TapDecision::PassThrough);
    assert_eq!(tap_decision(true, 0x28, modifiers, key, modifiers), TapDecision::PassThrough);
}

#[test]
fn the_key_code_is_the_low_sixteen_bits_of_the_field() {
    assert_eq!(key_code_of_field(0), 0);
    assert_eq!(key_code_of_field(0x29), 0x29);
    assert_eq!(key_code_of_field(0xFFFF), 0xFFFF);
    assert_eq!(key_code_of_field(0x1_0029), 0x29);
    assert_eq!(key_code_of_field(-1), 0xFFFF);
    assert_eq!(key_code_of_field(i64::MIN), 0);
}

#[test]
fn a_listener_holds_the_chord_of_the_settings() {
    let listener = HotkeyListener::from_config(&chord(&["cmd", "shift"], "semicolon")).unwrap();
    assert_eq!(listener.key_code(), 0x29);
    assert_eq!(listener.modifiers(), 0x0012_0000);
    assert!(!listener.running_flag());
    let listener = HotkeyListener::from_config(&chord(&["Ctrl", "OPTION"], "Space")).unwrap();
    assert_eq!(listener.key_code(), 0x31);
    assert_eq!(listener.modifiers(), FLAG_CONTROL | FLAG_ALTERNATE);
    assert_eq!(listener.modifiers(), modifiers_from_config(&chord(&["ctrl", "alt"], "").modifiers));
}

#[test]
fn a_listener_without_modifiers_is_accepted() {
    let listener = HotkeyListener::from_config(&chord(&[], "escape")).unwrap();
    assert_eq!(listener.key_code(), 0x35);
    assert_eq!(listener.modifiers(), 0);
    assert_eq!(listener.on_event(true, 0x35, 0), TapDecision::Consume);
    assert_eq!(listener.on_event(true, 0x35, FLAG_SHIFT), TapDecision::PassThrough);
}

#[test]
fn an_unknown_key_is_an_error_that_names_the_key() {
    match HotkeyListener::from_config(&chord(&["cmd"], "F13")) {
        Err(error) => {
            assert_eq!(error, HotkeyError::UnknownKey("F13".to_string()));
            assert_eq!(error.message(), "Unknown key: F13");
        }
        Ok(_) => panic!("F13 is not in the key table"),
    }
    assert!(HotkeyListener::from_config(&chord(&["cmd"], "")).is_err());
}

#[test]
fn begin_and_stop_set_the_running_flag_and_keep_the_chord() {
    let mut listener = HotkeyListener::from_config(&chord(&["cmd"], "e")).unwrap();
    assert!(!listener.running_flag());
    listener.begin();
    assert!(listener.running_flag());
    assert_eq!(listener.key_code(), 0x0E);
    assert_eq!(listener.modifiers(), FLAG_COMMAND);
    listener.stop();
    assert!(!listener.running_flag());
    listener.stop();
    assert!(!listener.running_flag());
    assert_eq!(listener.key_code(), 0x0E);
    assert_eq!(listener.modifiers(), FLAG_COMMAND);
}

#[test]
fn the_chord_is_shown_with_symbols_before_the_key() {
    assert_eq!(format_hotkey_display(&chord(&["cmd", "shift"], "semicolon")), "\u{21E7}\u{2318};");
    assert_eq!(format_hotkey_display(&chord(&["ctrl"], "a")), "\u{2303}A");
    assert_eq!(
        format_hotkey_display(&chord(&["cmd", "alt", "ctrl", "shift"], "Return")),
        "\u{2303}\u{2325}\u{21E7}\u{2318}\u{21B5}"
    );
    assert_eq!(format_hotkey_display(&chord(&[], "space")), "Space");
    assert_eq!(format_hotkey_display(&chord(&["bogus"], "f13")), "F13");
}

#[test]
fn a_missing_permission_says_how_to_grant_it() {
    assert_eq!(
        HotkeyError::PermissionDenied.message(),
        "Failed to create event tap. Make sure Accessibility permissions are granted."
    );
    assert_eq!(HotkeyError::NoRunLoopSource.message(), "Failed to create run loop source");
}

#[test]
fn the_display_is_made_of_the_folded_names() {
    let names = |list: &[&str]| -> Vec<String> { list.iter().map(|n| n.to_string()).collect() };
    assert_eq!(
        hotkey_display_from(&names(&["cmd", "shift"]), "semicolon", "SEMICOLON"),
        "\u{21E7}\u{2318};"
    );
    assert_eq!(hotkey_display_from(&names(&["ctrl"]), "k", "K"), "\u{2303}K");
    assert_eq!(hotkey_display_from(&names(&["Ctrl"]), "k", "K"), "K");
    assert_eq!(hotkey_display_from(&names(&[]), "f5", "F5"), "F5");
    assert_eq!(hotkey_display_from(&names(&["alt"]), "Space", "SPACE"), "\u{2325}SPACE");
    assert_eq!(hotkey_display_from(&names(&["alt"]), "space", "SPACE"), "\u{2325}Space");
}

#[test]
fn a_key_is_labelled_by_its_special_label_or_its_capitals() {
    assert_eq!(key_label("semicolon", "SEMICOLON"), ";");
    assert_eq!(key_label("return", "RETURN"), "\u{21B5}");
    assert_eq!(key_label("a", "A"), "A");
    assert_eq!(key_label("a", "anything"), "anything");
    assert_eq!(key_label("Semicolon", "SEMICOLON"), "SEMICOLON");
    assert_eq!(key_label("", ""), "");
}
