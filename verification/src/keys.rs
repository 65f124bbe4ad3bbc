//! Normalized key events.
//!
//! The host turns raw terminal key events into this neutral descriptor before
//! handing them to the modal editor; the state machine never sees raw events.

use vstd::prelude::*;

verus! {

/// A key identifier: a printable character or one of the named keys the
/// editor cares about. `Null` is the explicit no-op key.
#[derive(Clone, Copy, Debug, PartialEq, Eq, Structural)]
pub enum Key {
    Char(char),
    Esc,
    Enter,
    Backspace,
    Delete,
    Tab,
    BackTab,
    Left,
    Right,
    Up,
    Down,
    Null,
}

/// A normalized key event: the key plus the control-modifier flag.
#[derive(Clone, Copy, Debug, PartialEq, Eq, Structural)]
pub struct Input {
    pub key: Key,
    pub ctrl: bool,
}

/// The input value used to seed the pending slot: the no-op key.
pub open spec fn null_input() -> Input {
    Input { key: Key::Null, ctrl: false }
}

impl Input {
    /// Build a plain (no modifier) character key event.
    pub fn ch(c: char) -> (r: Input)
        ensures
            r == (Input { key: Key::Char(c), ctrl: false }),
    {
        Input { key: Key::Char(c), ctrl: false }
    }

    /// Build a control-modified character key event.
    pub fn ctrl_ch(c: char) -> (r: Input)
        ensures
            r == (Input { key: Key::Char(c), ctrl: true }),
    {
        Input { key: Key::Char(c), ctrl: true }
    }

    /// Build a plain named-key event.
    pub fn of_key(key: Key) -> (r: Input)
        ensures
            r == (Input { key, ctrl: false }),
    {
        Input { key, ctrl: false }
    }
}

impl Default for Input {
    /// The default input is the no-op key with no modifiers.
    fn default() -> (r: Input)
        ensures
            r == null_input(),
    {
        Input { key: Key::Null, ctrl: false }
    }
}

} // verus!
