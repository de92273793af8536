//! The global hotkey: matching a keyboard event against the configured chord,
//! the listener that holds the chord, and the commands that change it while
//! the listener runs.

use crate::config::{HotkeyConfig, HotkeyConfigView};
use crate::keys::{display_of_name, key_code_from_string, key_code_of, key_label, label_of};
use crate::modifiers::{
    display_of_flags, flags_of_names, is_tracked_flag, lowercase_all, lowercase_names,
    modifiers_from_config, modifiers_from_names, modifiers_to_display, FLAG_ALTERNATE,
    FLAG_COMMAND, FLAG_CONTROL, FLAG_SHIFT, MODIFIER_MASK,
};
use crate::text::lowercase;
use vstd::prelude::*;

verus! {

/// How long a listener services its tap before it looks at its running flag
/// again, in milliseconds.
pub const LISTEN_SLICE_MS: u64 = 1000;

/// Whether a key-down event is the chord: the same key, and exactly the same
/// set of tracked modifiers. Bits outside the mask do not count, on either
/// side.
pub open spec fn chord_matches(
    event_key_code: u16,
    event_flags: u64,
    key_code: u16,
    modifiers: u64,
) -> bool {
    event_key_code == key_code && event_flags & MODIFIER_MASK == modifiers & MODIFIER_MASK
}

/// What the tap does with an event.
#[derive(Debug, Clone, Copy, PartialEq, Eq, Structural)]
pub enum TapDecision {
    /// The event is the chord: it is kept from other applications and the
    /// callback is triggered once.
    Consume,
    /// The event goes on to other applications unchanged.
    PassThrough,
}

/// What the tap does with an event, given whether it is a key-down event, its
/// key code and flags, and the chord.
pub open spec fn decision_for(
    is_key_down: bool,
    event_key_code: u16,
    event_flags: u64,
    key_code: u16,
    modifiers: u64,
) -> TapDecision {
    if is_key_down && chord_matches(event_key_code, event_flags, key_code, modifiers) {
        TapDecision::Consume
    } else {
        TapDecision::PassThrough
    }
}

/// The key code that an event carries in its integer key-code field: the low
/// sixteen bits of the field, which are the field itself where it is a key
/// code.
pub fn key_code_of_field(field: i64) -> (key_code: u16)
    ensures
        key_code == field as u16,
        0 <= field <= 0xFFFF ==> key_code == field,
{
    assert(0 <= field <= 0xFFFF ==> (field as u16) as i64 == field) by (bit_vector);
    #[verifier::truncate]
    (field as u16)
}

/// Decides whether a key-down event is the chord.
pub fn matches_chord(event_key_code: u16, event_flags: u64, key_code: u16, modifiers: u64) -> (hit:
    bool)
    ensures
        hit == chord_matches(event_key_code, event_flags, key_code, modifiers),
{
    event_key_code == key_code && event_flags & MODIFIER_MASK == modifiers & MODIFIER_MASK
}

/// Decides what the tap does with an event. Only a key-down event that is the
/// chord is consumed.
pub fn tap_decision(
    is_key_down: bool,
    event_key_code: u16,
    event_flags: u64,
    key_code: u16,
    modifiers: u64,
) -> (decision: TapDecision)
    ensures
        decision == decision_for(is_key_down, event_key_code, event_flags, key_code, modifiers),
{
    if is_key_down && matches_chord(event_key_code, event_flags, key_code, modifiers) {
        TapDecision::Consume
    } else {
        TapDecision::PassThrough
    }
}

/// The chord as the menu shows it: the symbols of its modifiers, then the
/// label of its key.
pub open spec fn hotkey_display_of(config: HotkeyConfigView) -> Seq<char> {
    display_of_flags(flags_of_names(lowercase_all(config.modifiers))) + display_of_name(
        lowercase(config.key),
    )
}

/// The chord as the menu shows it, given the names of its modifiers in
/// lower case and the name of its key in lower case and in capitals: the
/// symbols of the modifiers, then the label of the key.
pub fn hotkey_display_from(modifiers: &[String], key: &str, key_raised: &str) -> (shown: String)
    ensures
        shown@ == display_of_flags(flags_of_names(modifiers.deep_view())) + label_of(
            key@,
            key_raised@,
        ),
{
    let mut shown = modifiers_to_display(modifiers_from_names(modifiers));
    let label = key_label(key, key_raised);
    shown.append(label.as_str());
    shown
}

/// The chord as the menu shows it, such as "⇧⌘;".
pub fn format_hotkey_display(config: &HotkeyConfig) -> (shown: String)
    ensures
        shown@ == hotkey_display_of(config@),
{
    let modifiers = lowercase_names(config.modifiers.as_slice());
    let key = config.key.as_str().to_lowercase();
    let key_raised = key.as_str().to_uppercase();
    hotkey_display_from(modifiers.as_slice(), key.as_str(), key_raised.as_str())
}

/// Why a chord cannot be listened for.
#[derive(Debug, PartialEq, Eq)]
pub enum HotkeyError {
    /// The key table does not have the key name; the name is kept as written.
    UnknownKey(String),
    /// The system does not let this process watch the keyboard.
    PermissionDenied,
    /// The tap could not be joined to the run loop.
    NoRunLoopSource,
}

impl HotkeyError {
    /// The error as a line for the log.
    pub open spec fn message_of(self) -> Seq<char> {
        match self {
            HotkeyError::UnknownKey(key) => "Unknown key: "@ + key@,
            HotkeyError::PermissionDenied => "Failed to create event tap. Make sure Accessibility permissions are granted."@,
            HotkeyError::NoRunLoopSource => "Failed to create run loop source"@,
        }
    }

    /// The error as a line for the log. The line about a missing permission
    /// says how to grant it.
    pub fn message(&self) -> (line: String)
        ensures
            line@ == self.message_of(),
    {
        match self {
            HotkeyError::UnknownKey(key) => {
                let mut line = "Unknown key: ".to_owned();
                line.append(key.as_str());
                line
            },
            HotkeyError::PermissionDenied => "Failed to create event tap. Make sure Accessibility permissions are granted.".to_owned(),
            HotkeyError::NoRunLoopSource => "Failed to create run loop source".to_owned(),
        }
    }
}

/// A chord to listen for, and whether the listener is running.
#[derive(Debug)]
pub struct HotkeyListener {
    key_code: u16,
    modifiers: u64,
    running: bool,
}

/// What a `HotkeyListener` holds.
pub struct HotkeyListenerView {
    pub key_code: u16,
    pub modifiers: u64,
    pub running: bool,
}

impl View for HotkeyListener {
    type V = HotkeyListenerView;

    closed spec fn view(&self) -> HotkeyListenerView {
        HotkeyListenerView {
            key_code: self.key_code,
            modifiers: self.modifiers,
            running: self.running,
        }
    }
}

impl HotkeyListener {
    /// A listener for the chord of the settings, not yet running. Fails where
    /// the key table does not have the key name, whatever its case.
    pub fn from_config(config: &HotkeyConfig) -> (made: Result<Self, HotkeyError>)
        ensures
            match made {
                Ok(listener) => {
                    &&& key_code_of(lowercase(config.key@)) == Some(listener@.key_code)
                    &&& listener@.modifiers == flags_of_names(lowercase_all(config@.modifiers))
                    &&& !listener@.running
                },
                Err(error) => {
                    &&& key_code_of(lowercase(config.key@)) is None
                    &&& error matches HotkeyError::UnknownKey(key) && key@ == config.key@
                },
            },
    {
        match key_code_from_string(config.key.as_str()) {
            Some(key_code) => {
                let modifiers = modifiers_from_config(config.modifiers.as_slice());
                Ok(HotkeyListener { key_code, modifiers, running: false })
            },
            None => Err(HotkeyError::UnknownKey(config.key.clone())),
        }
    }

    /// The code of the chord's key.
    pub fn key_code(&self) -> (key_code: u16)
        ensures
            key_code == self@.key_code,
    {
        self.key_code
    }

    /// The flags of the chord's modifiers.
    pub fn modifiers(&self) -> (modifiers: u64)
        ensures
            modifiers == self@.modifiers,
    {
        self.modifiers
    }

    /// Marks the listener as running; the chord stays.
    pub fn begin(&mut self)
        ensures
            final(self)@ == (HotkeyListenerView { running: true, ..old(self)@ }),
    {
        self.running = true;
    }

    /// Asks the listener to stop; the chord stays.
    pub fn stop(&mut self)
        ensures
            final(self)@ == (HotkeyListenerView { running: false, ..old(self)@ }),
    {
        self.running = false;
    }

    /// Whether the listener is running.
    pub fn running_flag(&self) -> (running: bool)
        ensures
            running == self@.running,
    {
        self.running
    }

    /// What the listener's tap does with an event.
    pub fn on_event(&self, is_key_down: bool, event_key_code: u16, event_flags: u64) -> (decision:
        TapDecision)
        ensures
            decision == decision_for(
                is_key_down,
                event_key_code,
                event_flags,
                self@.key_code,
                self@.modifiers,
            ),
    {
        tap_decision(is_key_down, event_key_code, event_flags, self.key_code, self.modifiers)
    }
}

/// An event whose key and tracked modifiers are those of the chord matches.
pub proof fn lemma_same_chord_matches(key_code: u16, modifiers: u64)
    ensures
        chord_matches(key_code, modifiers, key_code, modifiers),
{
}

/// Bits outside the mask do not change whether an event matches, whether the
/// event carries them or the chord does.
pub proof fn lemma_untracked_bits_ignored(
    event_key_code: u16,
    event_flags: u64,
    key_code: u16,
    modifiers: u64,
    extra: u64,
)
    requires
        extra & MODIFIER_MASK == 0,
    ensures
        chord_matches(event_key_code, event_flags | extra, key_code, modifiers) == chord_matches(
            event_key_code,
            event_flags,
            key_code,
            modifiers,
        ),
        chord_matches(event_key_code, event_flags, key_code, modifiers | extra) == chord_matches(
            event_key_code,
            event_flags,
            key_code,
            modifiers,
        ),
{
    assert((event_flags | extra) & MODIFIER_MASK == event_flags & MODIFIER_MASK) by (bit_vector)
        requires
            extra & MODIFIER_MASK == 0,
    ;
    assert((modifiers | extra) & MODIFIER_MASK == modifiers & MODIFIER_MASK) by (bit_vector)
        requires
            extra & MODIFIER_MASK == 0,
    ;
}

/// The modifiers are matched as a set, not as a subset: an event that differs
/// from the chord in one tracked modifier, held in addition or missing, does
/// not match.
pub proof fn lemma_differing_modifier_rejects(
    event_key_code: u16,
    event_flags: u64,
    key_code: u16,
    modifiers: u64,
    flag: u64,
)
    requires
        is_tracked_flag(flag),
        (event_flags & flag != 0) != (modifiers & flag != 0),
    ensures
        !chord_matches(event_key_code, event_flags, key_code, modifiers),
{
    assert(event_flags & MODIFIER_MASK != modifiers & MODIFIER_MASK) by (bit_vector)
        requires
            flag == FLAG_COMMAND || flag == FLAG_SHIFT || flag == FLAG_ALTERNATE || flag
                == FLAG_CONTROL,
            (event_flags & flag != 0) != (modifiers & flag != 0),
    ;
}

} // verus!
