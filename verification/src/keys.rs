//! The keyboard keys and key-event phases the controls' key handling reads.

use vstd::prelude::*;

verus! {

/// A logical keyboard key.
#[derive(Clone, Copy, Debug, PartialEq, Eq, Structural)]
pub enum Key {
    ArrowLeft,
    ArrowRight,
    ArrowUp,
    ArrowDown,
    Space,
    Enter,
    NumpadEnter,
    GamepadA,
    Tab,
    Escape,
    F4,
    Home,
    End,
    PageUp,
    PageDown,
    Alt,
    Backspace,
    Delete,
    Insert,
    Other,
}

/// Whether a key event presses, repeats or releases its key.
#[derive(Clone, Copy, Debug, PartialEq, Eq, Structural)]
pub enum KeyPhase {
    Down,
    Repeat,
    Up,
}

} // verus!
