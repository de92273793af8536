//! Recording a new chord: the next key press with at least one modifier
//! becomes the chord, unless the recording times out first.

use crate::config::{HotkeyConfig, HotkeyConfigView};
use crate::hotkey::{chord_matches, TapDecision};
use crate::keys::{config_name_of, key_code_of, key_code_to_config, lemma_config_name_round_trip};
use crate::modifiers::{
    config_names_of, flags_of_names, lemma_config_names_round_trip, modifiers_to_config,
    FLAG_ALTERNATE, FLAG_COMMAND, FLAG_CONTROL, FLAG_SHIFT, MODIFIER_MASK,
};
use crate::text::{lowercase, opt_str, str_eq};
use vstd::prelude::*;

verus! {

/// How long a recording waits for a key press, in milliseconds.
pub const RECORDING_TIMEOUT_MS: u64 = 10_000;

/// How long the recording services its tap between two looks at the clock,
/// in milliseconds.
pub const RECORDING_SLICE_MS: u64 = 100;

/// Whether a key code is that of a modifier key itself, which is no key of a
/// chord.
pub open spec fn is_modifier_key(key_code: u16) -> bool {
    54 <= key_code <= 63
}

/// The chord that a key-down event gives, as the settings write it. There is
/// none where the key is a modifier key, where the key table does not have
/// the code, or where no tracked modifier is held.
pub open spec fn candidate_of(key_code: u16, flags: u64) -> Option<HotkeyConfigView> {
    if is_modifier_key(key_code) {
        None
    } else {
        match config_name_of(key_code) {
            Some(key) => {
                if flags & MODIFIER_MASK == 0 {
                    None
                } else {
                    Some(HotkeyConfigView { modifiers: config_names_of(flags), key })
                }
            },
            None => None,
        }
    }
}

/// The view of a chord that may be absent.
pub open spec fn opt_chord(chord: Option<HotkeyConfig>) -> Option<HotkeyConfigView> {
    match chord {
        Some(c) => Some(c@),
        None => None,
    }
}

/// The chord that a key-down event gives, if it gives one.
pub fn candidate_chord(key_code: u16, flags: u64) -> (chord: Option<HotkeyConfig>)
    ensures
        opt_chord(chord) == candidate_of(key_code, flags),
{
    if 54 <= key_code && key_code <= 63 {
        return None;
    }
    match key_code_to_config(key_code) {
        Some(key) => {
            let modifiers = modifiers_to_config(flags & MODIFIER_MASK);
            proof {
                lemma_names_of_masked(flags);
            }
            if modifiers.len() == 0 {
                None
            } else {
                Some(HotkeyConfig { modifiers, key })
            }
        },
        None => None,
    }
}

/// Only the tracked bits of the flags are written as names, and a name is
/// written exactly when a tracked bit is set.
pub proof fn lemma_names_of_masked(flags: u64)
    ensures
        config_names_of(flags & MODIFIER_MASK) == config_names_of(flags),
        config_names_of(flags).len() == 0 <==> flags & MODIFIER_MASK == 0,
{
    let masked = flags & MODIFIER_MASK;
    assert(masked & FLAG_COMMAND == flags & FLAG_COMMAND) by (bit_vector)
        requires
            masked == flags & MODIFIER_MASK,
    ;
    assert(masked & FLAG_SHIFT == flags & FLAG_SHIFT) by (bit_vector)
        requires
            masked == flags & MODIFIER_MASK,
    ;
    assert(masked & FLAG_ALTERNATE == flags & FLAG_ALTERNATE) by (bit_vector)
        requires
            masked == flags & MODIFIER_MASK,
    ;
    assert(masked & FLAG_CONTROL == flags & FLAG_CONTROL) by (bit_vector)
        requires
            masked == flags & MODIFIER_MASK,
    ;
    assert(masked == 0 <==> (flags & FLAG_COMMAND == 0 && flags & FLAG_SHIFT == 0 && flags
        & FLAG_ALTERNATE == 0 && flags & FLAG_CONTROL == 0)) by (bit_vector)
        requires
            masked == flags & MODIFIER_MASK,
    ;
}

/// A recorded chord has at least one modifier, and read back as the settings
/// are read, with the names taken as they are written, it is the chord of the
/// event that was recorded: that event matches it.
pub proof fn lemma_candidate_reads_back(key_code: u16, flags: u64)
    requires
        candidate_of(key_code, flags) is Some,
    ensures
        ({
            let chord = candidate_of(key_code, flags)->0;
            &&& chord.modifiers.len() >= 1
            &&& key_code_of(chord.key) == Some(key_code)
            &&& flags_of_names(chord.modifiers) == flags & MODIFIER_MASK
            &&& chord_matches(key_code, flags, key_code, flags_of_names(chord.modifiers))
        }),
{
    lemma_names_of_masked(flags);
    lemma_config_name_round_trip(key_code);
    lemma_config_names_round_trip(flags);
    let masked = flags & MODIFIER_MASK;
    assert(masked & MODIFIER_MASK == masked) by (bit_vector)
        requires
            masked == flags & MODIFIER_MASK,
    ;
}

/// A recording: whether a chord has been taken yet.
#[derive(Debug)]
pub struct HotkeyRecorder {
    recorded: bool,
}

impl View for HotkeyRecorder {
    type V = bool;

    closed spec fn view(&self) -> bool {
        self.recorded
    }
}

/// What the recording's tap does with an event.
#[derive(Debug, PartialEq, Eq)]
pub enum RecorderDecision {
    /// The event goes on to other applications unchanged.
    PassThrough,
    /// The event is kept from other applications, and this is the chord.
    Record(HotkeyConfig),
}

/// What a `RecorderDecision` holds, as mathematical values.
pub enum RecorderDecisionView {
    PassThrough,
    Record(HotkeyConfigView),
}

impl View for RecorderDecision {
    type V = RecorderDecisionView;

    open spec fn view(&self) -> RecorderDecisionView {
        match self {
            RecorderDecision::PassThrough => RecorderDecisionView::PassThrough,
            RecorderDecision::Record(chord) => RecorderDecisionView::Record(chord@),
        }
    }
}

impl RecorderDecision {
    /// What becomes of the event itself.
    pub fn tap_decision(&self) -> (decision: TapDecision)
        ensures
            decision == if self@ is Record {
                TapDecision::Consume
            } else {
                TapDecision::PassThrough
            },
    {
        match self {
            RecorderDecision::PassThrough => TapDecision::PassThrough,
            RecorderDecision::Record(_) => TapDecision::Consume,
        }
    }
}

/// What the recording does with an event: the first key-down event that
/// gives a chord is recorded; every other event passes.
pub open spec fn recorder_decision(
    recorded: bool,
    is_key_down: bool,
    key_code: u16,
    flags: u64,
) -> RecorderDecisionView {
    if is_key_down && !recorded {
        match candidate_of(key_code, flags) {
            Some(chord) => RecorderDecisionView::Record(chord),
            None => RecorderDecisionView::PassThrough,
        }
    } else {
        RecorderDecisionView::PassThrough
    }
}

/// What the waiting side of a recording does next.
#[derive(Debug, Clone, Copy, PartialEq, Eq, Structural)]
pub enum RecorderAction {
    /// A chord was recorded: hand it on and end.
    Finish,
    /// No key came in time: report the timeout and end.
    TimeOut,
    /// Service the tap this long, in milliseconds, and ask again.
    Service { millis: u64 },
}

/// What the waiting side does, given whether a chord was recorded and how
/// long the recording has run, in milliseconds. The timeout comes only after
/// more than the full time has passed.
pub open spec fn recorder_action(recorded: bool, elapsed_ms: u64) -> RecorderAction {
    if recorded {
        RecorderAction::Finish
    } else if elapsed_ms > RECORDING_TIMEOUT_MS {
        RecorderAction::TimeOut
    } else {
        RecorderAction::Service { millis: RECORDING_SLICE_MS }
    }
}

impl HotkeyRecorder {
    /// A recording that has taken no chord yet.
    pub fn new() -> (recorder: Self)
        ensures
            !recorder@,
    {
        HotkeyRecorder { recorded: false }
    }

    /// Whether a chord has been taken.
    pub fn is_recorded(&self) -> (recorded: bool)
        ensures
            recorded == self@,
    {
        self.recorded
    }

    /// Decides what the tap does with an event, and takes the chord where the
    /// event gives one.
    pub fn on_event(&mut self, is_key_down: bool, key_code: u16, flags: u64) -> (decision:
        RecorderDecision)
        ensures
            decision@ == recorder_decision(old(self)@, is_key_down, key_code, flags),
            final(self)@ == (old(self)@ || decision@ is Record),
    {
        if !is_key_down || self.recorded {
            return RecorderDecision::PassThrough;
        }
        match candidate_chord(key_code, flags) {
            Some(chord) => {
                self.recorded = true;
                RecorderDecision::Record(chord)
            },
            None => RecorderDecision::PassThrough,
        }
    }

    /// What the waiting side does next, after `elapsed_ms` whole
    /// milliseconds (rounded up, as `millis_up` gives them).
    pub fn next_action(&self, elapsed_ms: u64) -> (action: RecorderAction)
        ensures
            action == recorder_action(self@, elapsed_ms),
    {
        if self.recorded {
            RecorderAction::Finish
        } else if elapsed_ms > RECORDING_TIMEOUT_MS {
            RecorderAction::TimeOut
        } else {
            RecorderAction::Service { millis: RECORDING_SLICE_MS }
        }
    }
}

/// Whether the command modifier, under either of its names as written, is
/// the only modifier of a chord.
pub open spec fn only_command(modifiers: Seq<Seq<char>>) -> bool {
    modifiers.len() == 1 && (modifiers[0] == "cmd"@ || modifiers[0] == "command"@)
}

/// Why the system keeps the command key with a given lower-case key name for
/// itself, if it does.
pub open spec fn reserved_with_command(key: Seq<char>) -> Option<Seq<char>> {
    if key == "q"@ {
        Some("Cmd+Q is reserved for Quit"@)
    } else if key == "w"@ {
        Some("Cmd+W is reserved for Close Window"@)
    } else if key == "h"@ {
        Some("Cmd+H is reserved for Hide"@)
    } else if key == "m"@ {
        Some("Cmd+M is reserved for Minimize"@)
    } else if key == "tab"@ {
        Some("Cmd+Tab is reserved for App Switcher"@)
    } else if key == "space"@ {
        Some("Cmd+Space is reserved for Spotlight"@)
    } else {
        None
    }
}

/// Why a chord is reserved by the system, if it is: only chords of the
/// command key alone with one of six keys are.
pub open spec fn reserved_reason_of(config: HotkeyConfigView) -> Option<Seq<char>> {
    if only_command(config.modifiers) {
        reserved_with_command(lowercase(config.key))
    } else {
        None
    }
}

/// Why the system keeps the command key with a given lower-case key name for
/// itself, if it does.
pub fn reserved_command_key(key: &str) -> (reason: Option<&'static str>)
    ensures
        opt_str(reason) == reserved_with_command(key@),
{
    if str_eq(key, "q") {
        Some("Cmd+Q is reserved for Quit")
    } else if str_eq(key, "w") {
        Some("Cmd+W is reserved for Close Window")
    } else if str_eq(key, "h") {
        Some("Cmd+H is reserved for Hide")
    } else if str_eq(key, "m") {
        Some("Cmd+M is reserved for Minimize")
    } else if str_eq(key, "tab") {
        Some("Cmd+Tab is reserved for App Switcher")
    } else if str_eq(key, "space") {
        Some("Cmd+Space is reserved for Spotlight")
    } else {
        None
    }
}

/// Whether a chord is reserved by the system: the reason where it is, `None`
/// where it is free. The modifier names are read as written, the key name
/// without regard to case.
pub fn is_reserved_hotkey(config: &HotkeyConfig) -> (reason: Option<&'static str>)
    ensures
        opt_str(reason) == reserved_reason_of(config@),
{
    let only_cmd = config.modifiers.len() == 1 && (str_eq(config.modifiers[0].as_str(), "cmd")
        || str_eq(config.modifiers[0].as_str(), "command"));
    if only_cmd {
        let key = config.key.as_str().to_lowercase();
        reserved_command_key(key.as_str())
    } else {
        None
    }
}

} // verus!
