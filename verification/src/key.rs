//! The closed set of key events the prompt loops consume.
use vstd::prelude::*;

verus! {

/// One decoded keyboard event.
///
/// This is the whole input alphabet of every prompt: the terminal edge maps
/// raw events onto it and anything else is dropped before the state machines
/// see it.
#[derive(Clone, Copy, Debug, PartialEq, Eq, Structural)]
pub enum Key {
    /// Up arrow.
    Up,
    /// Down arrow.
    Down,
    /// Left arrow.
    Left,
    /// Right arrow.
    Right,
    /// Page-up.
    PageUp,
    /// Page-down.
    PageDown,
    /// Enter / return.
    Enter,
    /// A printable character (space toggles in a multi-select,
    /// `y`/`n` answer a confirm).
    Char(char),
    /// Ctrl-C.
    CtrlC,
    /// Ctrl-D.
    CtrlD,
}

} // verus!
