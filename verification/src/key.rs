//! Key events, already decoded upstream from the raw terminal input.

use vstd::prelude::*;

verus! {

/// A decoded key code. `Char` carries one Unicode scalar value; the
/// remaining variants stand for the non-printable keys the client tells
/// apart. Keys the editor has no opinion about still get a variant here so
/// that they can travel through the dispatch chain untouched.
#[derive(Debug, Clone, Copy, PartialEq, Eq)]
pub enum KeyCode {
    Char(char),
    Backspace,
    Left,
    Right,
    Up,
    Down,
    Enter,
    Esc,
    Tab,
    Home,
    End,
    Delete,
    Function(u8),
    Unknown,
}

/// A key code together with its modifier, if any.
#[derive(Debug, Clone, Copy, PartialEq, Eq)]
pub enum Key {
    Plain(KeyCode),
    Ctrl(KeyCode),
    Alt(KeyCode),
}

/// A sequence of keys, as matched by the client's key-binding tables.
/// Widgets only ever look at the first key of a sequence.
#[derive(Debug, Clone, PartialEq, Eq)]
pub struct KeySequence {
    pub keys: Vec<Key>,
}

} // verus!
