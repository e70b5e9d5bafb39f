//! Logical mouse buttons, and the table from the native library's button codes
//! to them.

use vstd::prelude::*;

verus! {

/// A mouse button as the framework sees it.
#[derive(Clone, Copy, Debug, PartialEq, Eq, Structural)]
pub enum MouseButton {
    Unknown,
    Left,
    Right,
    Middle,
    X1,
    X2,
    Button6,
    Button7,
    Button8,
}

/// The logical button of a native button code: the native library numbers its
/// eight buttons from zero; any other code gives `MouseButton::Unknown`.
pub open spec fn button_of(code: i32) -> MouseButton {
    match code {
        0 => MouseButton::Left,
        1 => MouseButton::Right,
        2 => MouseButton::Middle,
        3 => MouseButton::X1,
        4 => MouseButton::X2,
        5 => MouseButton::Button6,
        6 => MouseButton::Button7,
        7 => MouseButton::Button8,
        _ => MouseButton::Unknown,
    }
}

/// Maps a native mouse-button code to its logical button. Defined for every
/// code.
pub fn map_mouse(code: i32) -> (r: MouseButton)
    ensures
        r == button_of(code),
{
    match code {
        0 => MouseButton::Left,
        1 => MouseButton::Right,
        2 => MouseButton::Middle,
        3 => MouseButton::X1,
        4 => MouseButton::X2,
        5 => MouseButton::Button6,
        6 => MouseButton::Button7,
        7 => MouseButton::Button8,
        _ => MouseButton::Unknown,
    }
}

} // verus!
