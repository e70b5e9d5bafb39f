//! The raw records the native library delivers, the normalized events the
//! framework consumes, and what each raw record becomes.

use vstd::prelude::*;
use crate::keyboard::{Key, key_of, NATIVE_KEY_ESCAPE};
use crate::mouse::{MouseButton, button_of};

verus! {

/// The state change a native key or button record reports.
#[derive(Clone, Copy, Debug, PartialEq, Eq, Structural)]
pub enum Action {
    Release,
    Press,
    Repeat,
}

/// One record of the native event stream. `P` is the type of a pointer
/// position or a scroll offset; the translation only carries such values.
#[derive(Clone, Copy, Debug, PartialEq)]
pub enum RawEvent<P> {
    /// A keyboard key, by native key code.
    Key { code: i32, action: Action },
    /// A mouse button, by native button code.
    MouseButton { code: i32, action: Action },
    /// The pointer's absolute position.
    CursorPos(P),
    /// A scroll offset.
    Scroll(P),
    /// A character of text input.
    Char(char),
    /// A record of a kind the translation ignores.
    Other,
}

/// The device a press or release comes from.
#[derive(Clone, Copy, Debug, PartialEq, Eq, Structural)]
pub enum Button {
    Keyboard(Key),
    Mouse(MouseButton),
}

/// A movement.
#[derive(Clone, Copy, Debug, PartialEq)]
pub enum Motion<P> {
    /// The pointer's absolute position.
    MouseCursor(P),
    /// The pointer moved from `from` to `to`; the delta is `to - from`.
    MouseRelative { from: P, to: P },
    /// A scroll offset.
    MouseScroll(P),
}

/// A normalized input event.
#[derive(Clone, Copy, Debug, PartialEq)]
pub enum InputEvent<P> {
    Press(Button),
    Release(Button),
    /// One character of text.
    Text(char),
    Move(Motion<P>),
}

/// Whether a raw record asks for the window to close: an Escape press, when
/// the window exits on Escape.
pub open spec fn requests_close<P>(raw: RawEvent<P>, exit_on_esc: bool) -> bool {
    exit_on_esc && raw == (RawEvent::<P>::Key { code: NATIVE_KEY_ESCAPE, action: Action::Press })
}

/// The normalized events one raw record becomes, given the last known pointer
/// position.
pub open spec fn expand<P>(raw: RawEvent<P>, last: Option<P>, exit_on_esc: bool) -> Seq<InputEvent<P>> {
    if requests_close(raw, exit_on_esc) {
        seq![]
    } else {
        match raw {
            RawEvent::Key { code, action } => match action {
                Action::Press => seq![InputEvent::Press(Button::Keyboard(key_of(code)))],
                Action::Release => seq![InputEvent::Release(Button::Keyboard(key_of(code)))],
                Action::Repeat => seq![],
            },
            RawEvent::MouseButton { code, action } => match action {
                Action::Press => seq![InputEvent::Press(Button::Mouse(button_of(code)))],
                Action::Release => seq![InputEvent::Release(Button::Mouse(button_of(code)))],
                Action::Repeat => seq![],
            },
            RawEvent::CursorPos(p) => match last {
                Some(l) => seq![
                    InputEvent::Move(Motion::MouseCursor(p)),
                    InputEvent::Move(Motion::MouseRelative { from: l, to: p }),
                ],
                None => seq![InputEvent::Move(Motion::MouseCursor(p))],
            },
            RawEvent::Scroll(d) => seq![InputEvent::Move(Motion::MouseScroll(d))],
            RawEvent::Char(c) => seq![InputEvent::Text(c)],
            RawEvent::Other => seq![],
        }
    }
}

/// The last known pointer position after a raw record.
pub open spec fn cursor_after<P>(raw: RawEvent<P>, last: Option<P>) -> Option<P> {
    match raw {
        RawEvent::CursorPos(p) => Some(p),
        _ => last,
    }
}

/// The last known pointer position after a sequence of raw records.
pub open spec fn cursor_after_all<P>(raws: Seq<RawEvent<P>>, last: Option<P>) -> Option<P>
    decreases raws.len(),
{
    if raws.len() == 0 {
        last
    } else {
        cursor_after(raws.last(), cursor_after_all(raws.drop_last(), last))
    }
}

/// The normalized events a sequence of raw records becomes, in arrival order.
pub open spec fn expand_all<P>(raws: Seq<RawEvent<P>>, last: Option<P>, exit_on_esc: bool) -> Seq<InputEvent<P>>
    decreases raws.len(),
{
    if raws.len() == 0 {
        seq![]
    } else {
        expand_all(raws.drop_last(), last, exit_on_esc)
            + expand(raws.last(), cursor_after_all(raws.drop_last(), last), exit_on_esc)
    }
}

/// Whether some record of a sequence asks for the window to close.
pub open spec fn requests_close_any<P>(raws: Seq<RawEvent<P>>, exit_on_esc: bool) -> bool {
    exists|i: int| 0 <= i < raws.len() && #[trigger] requests_close(raws[i], exit_on_esc)
}

/// Taking the front of a queue: the front element, if any, and what is left.
pub open spec fn take_front<E>(s: Seq<E>) -> (Option<E>, Seq<E>) {
    if s.len() == 0 {
        (None, s)
    } else {
        (Some(s[0]), s.drop_first())
    }
}

} // verus!
