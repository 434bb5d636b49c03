//! Key presses as the screens read them.

use vstd::prelude::*;

verus! {

/// Which key was pressed.
#[derive(Clone, Copy, Debug, PartialEq, Eq, Structural)]
pub enum KeyCode {
    Char(char),
    Backspace,
    Delete,
    Enter,
    Esc,
    Tab,
    Left,
    Right,
    Up,
    Down,
    Home,
    End,
    PageUp,
    PageDown,
    /// Any key that no screen reacts to.
    Other,
}

/// No key is held with the key that was pressed.
pub const NONE: u8 = 0;

/// Shift is held.
pub const SHIFT: u8 = 1;

/// Control is held.
pub const CONTROL: u8 = 2;

/// Alt is held.
pub const ALT: u8 = 4;

/// Super is held.
pub const SUPER: u8 = 8;

/// Hyper is held.
pub const HYPER: u8 = 16;

/// Meta is held.
pub const META: u8 = 32;

/// One key press: the key, and the keys held with it, one bit for each as
/// the constants of this module name them.
#[derive(Clone, Copy, Debug, PartialEq, Eq, Structural)]
pub struct KeyEvent {
    pub code: KeyCode,
    pub modifiers: u8,
}

impl KeyEvent {
    /// Control, and nothing else, is held with the key.
    pub open spec fn ctrl(self) -> bool {
        self.modifiers == CONTROL
    }

    /// A key pressed with the given keys held.
    pub fn new(code: KeyCode, modifiers: u8) -> (key: KeyEvent)
        ensures
            key == (KeyEvent { code, modifiers }),
    {
        KeyEvent { code, modifiers }
    }

    /// A key pressed with nothing held.
    pub fn plain(code: KeyCode) -> (key: KeyEvent)
        ensures
            key == (KeyEvent { code, modifiers: NONE }),
    {
        KeyEvent { code, modifiers: NONE }
    }

    /// A key pressed with Control held.
    pub fn with_ctrl(code: KeyCode) -> (key: KeyEvent)
        ensures
            key == (KeyEvent { code, modifiers: CONTROL }),
    {
        KeyEvent { code, modifiers: CONTROL }
    }
}

} // verus!
