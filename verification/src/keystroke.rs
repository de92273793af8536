//! The two gestures that the driver makes on the user's behalf: copy and
//! paste, each a key pressed and released while the command key is held.

use crate::modifiers::FLAG_COMMAND;
use vstd::prelude::*;

verus! {

/// The code of the key `c`.
pub const KEY_C: u16 = 0x08;

/// The code of the key `v`.
pub const KEY_V: u16 = 0x09;

/// How long the key of a gesture is held down, in milliseconds.
pub const KEY_HOLD_MS: u64 = 10;

/// How long the driver waits after the copy gesture, in milliseconds, so
/// that the system has carried the copy out.
pub const COPY_AFTER_MS: u64 = 100;

/// A gesture.
#[derive(Debug, Clone, Copy, PartialEq, Eq, Structural)]
pub enum Gesture {
    Copy,
    Paste,
}

/// One synthetic keyboard event.
#[derive(Debug, Clone, Copy, PartialEq, Eq, Structural)]
pub struct KeyEvent {
    pub key_code: u16,
    pub key_down: bool,
    pub flags: u64,
}

impl Gesture {
    /// The code of the key of the gesture.
    pub open spec fn key_code_of(self) -> u16 {
        match self {
            Gesture::Copy => KEY_C,
            Gesture::Paste => KEY_V,
        }
    }

    /// The events of the gesture: the key goes down and comes up, both with
    /// the command flag and nothing else.
    pub open spec fn events_of(self) -> Seq<KeyEvent> {
        seq![
            KeyEvent { key_code: self.key_code_of(), key_down: true, flags: FLAG_COMMAND },
            KeyEvent { key_code: self.key_code_of(), key_down: false, flags: FLAG_COMMAND },
        ]
    }

    /// The code of the key of the gesture.
    pub fn key_code(&self) -> (key_code: u16)
        ensures
            key_code == self.key_code_of(),
    {
        match self {
            Gesture::Copy => KEY_C,
            Gesture::Paste => KEY_V,
        }
    }

    /// The events of the gesture, in the order in which they are posted;
    /// the driver waits `KEY_HOLD_MS` between the two.
    pub fn events(&self) -> (events: Vec<KeyEvent>)
        ensures
            events@ == self.events_of(),
    {
        let key_code = self.key_code();
        let mut events: Vec<KeyEvent> = Vec::new();
        events.push(KeyEvent { key_code, key_down: true, flags: FLAG_COMMAND });
        events.push(KeyEvent { key_code, key_down: false, flags: FLAG_COMMAND });
        assert(events@ =~= self.events_of());
        events
    }

    /// How long the driver waits after the gesture, in milliseconds: after a
    /// copy, so that the clipboard is filled; not after a paste.
    pub fn settle_ms(&self) -> (millis: u64)
        ensures
            millis == match self {
                Gesture::Copy => COPY_AFTER_MS,
                Gesture::Paste => 0,
            },
    {
        match self {
            Gesture::Copy => COPY_AFTER_MS,
            Gesture::Paste => 0,
        }
    }
}

} // verus!
