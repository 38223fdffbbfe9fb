//! Key presses, as far as the menus tell them apart.

use vstd::prelude::*;

verus! {

#[derive(Debug, Clone, Copy, PartialEq, Eq, Structural)]
pub enum Key {
    /// A key that types a character.
    Char(char),
    Enter,
    Esc,
    Up,
    Down,
    Backspace,
    /// Any other key.
    Other,
}

} // verus!
