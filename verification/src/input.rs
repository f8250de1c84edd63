//! Key presses as the pages see them.
use vstd::prelude::*;

verus! {

/// The keys that the pages react to; any other key is `Other`.
#[derive(Clone, Copy, PartialEq, Eq, Structural, Debug)]
pub enum KeyCode {
    Esc,
    Enter,
    Tab,
    BackTab,
    Up,
    Down,
    Left,
    Right,
    Home,
    End,
    Backspace,
    Char(char),
    Other,
}

/// A key press with the modifier keys that the pages look at.
#[derive(Clone, Copy, PartialEq, Eq, Structural, Debug)]
pub struct KeyEvent {
    pub code: KeyCode,
    pub ctrl: bool,
    pub shift: bool,
}

} // verus!
