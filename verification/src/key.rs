use vstd::prelude::*;

verus! {

/// The keys the widgets tell apart. Every other key is `Other`.
#[derive(Debug, Clone, Copy, PartialEq, Eq, Structural)]
pub enum KeyCode {
    Char(char),
    Backspace,
    Left,
    Right,
    Tab,
    Enter,
    Esc,
    Other,
}

/// One key press: the key, and whether shift was held with it.
#[derive(Debug, Clone, Copy, PartialEq, Eq, Structural)]
pub struct Key {
    pub code: KeyCode,
    pub shift: bool,
}

impl Key {
    /// A key pressed without shift.
    pub fn plain(code: KeyCode) -> (r: Key)
        ensures
            r == (Key { code, shift: false }),
    {
        Key { code, shift: false }
    }

    /// A key pressed with shift held.
    pub fn shifted(code: KeyCode) -> (r: Key)
        ensures
            r == (Key { code, shift: true }),
    {
        Key { code, shift: true }
    }

    /// The key of a character, pressed without shift.
    pub fn char(c: char) -> (r: Key)
        ensures
            r == (Key { code: KeyCode::Char(c), shift: false }),
    {
        Key { code: KeyCode::Char(c), shift: false }
    }
}

} // verus!
