//! One-shot detector for a doubled chord key: a command (such as "jump to
//! the first track") fires only on two consecutive presses of the same key,
//! and any other key in between resets the detector.

use vstd::prelude::*;

verus! {

/// State of the doubled-key detector.
#[derive(Clone, Copy, PartialEq, Eq, Structural, Debug)]
pub enum KeyChord {
    /// No pending first press.
    Idle,
    /// The chord key was pressed once; a second press fires.
    AwaitingSecondKey,
}

impl KeyChord {
    /// Feed one key event; `is_chord_key` says whether the event is the
    /// chord key. Yields the next state and whether the chord fired: a press
    /// while one is pending fires and resets, a first press arms the
    /// detector, anything else resets it.
    pub fn on_key(self, is_chord_key: bool) -> (r: (KeyChord, bool))
        ensures
            r == (if !is_chord_key {
                (KeyChord::Idle, false)
            } else if self is AwaitingSecondKey {
                (KeyChord::Idle, true)
            } else {
                (KeyChord::AwaitingSecondKey, false)
            }),
    {
        if !is_chord_key {
            (KeyChord::Idle, false)
        } else {
            match self {
                KeyChord::AwaitingSecondKey => (KeyChord::Idle, true),
                KeyChord::Idle => (KeyChord::AwaitingSecondKey, false),
            }
        }
    }
}

} // verus!
