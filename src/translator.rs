//! The event translator: a FIFO of normalized events, refilled from one pump of
//! the native source at a time, and the last known pointer position from which
//! relative motion is derived.

use vstd::prelude::*;
use std::collections::VecDeque;
use crate::event::{
    Action, Button, InputEvent, Motion, RawEvent, cursor_after, cursor_after_all, expand, expand_all,
    requests_close, requests_close_any, take_front,
};
use crate::keyboard::{map_key, NATIVE_KEY_ESCAPE};
use crate::mouse::map_mouse;

verus! {

/// Owns the normalized events not yet handed out and the relative-motion
/// baseline.
pub struct Translator<P> {
    pending: VecDeque<InputEvent<P>>,
    last_cursor: Option<P>,
    exit_on_esc: bool,
}

impl<P: Copy> Translator<P> {
    /// The events not yet handed out, front first.
    pub closed spec fn pending_events(&self) -> Seq<InputEvent<P>> {
        self.pending@
    }

    /// The baseline for relative motion; `None` when there is none yet.
    pub closed spec fn last_cursor(&self) -> Option<P> {
        self.last_cursor
    }

    /// Whether an Escape press closes the window instead of being an event.
    pub closed spec fn exits_on_escape(&self) -> bool {
        self.exit_on_esc
    }

    /// An empty translator with no relative-motion baseline.
    pub fn new(exit_on_esc: bool) -> (t: Self)
        ensures
            t.pending_events() == Seq::<InputEvent<P>>::empty(),
            t.last_cursor() == None::<P>,
            t.exits_on_escape() == exit_on_esc,
    {
        Translator { pending: VecDeque::new(), last_cursor: None, exit_on_esc }
    }

    /// Whether an Escape press closes the window.
    pub fn exit_on_esc(&self) -> (r: bool)
        ensures
            r == self.exits_on_escape(),
    {
        self.exit_on_esc
    }

    /// Whether every translated event has been handed out, so that the native
    /// source should be pumped before the next event is asked for.
    pub fn is_drained(&self) -> (r: bool)
        ensures
            r == (self.pending_events().len() == 0),
    {
        self.pending.len() == 0
    }

    /// Translates one raw record, appending what it becomes to the pending
    /// events. Returns whether the record asks for the window to close.
    pub fn translate(&mut self, raw: RawEvent<P>) -> (close: bool)
        ensures
            final(self).pending_events()
                == old(self).pending_events() + expand(raw, old(self).last_cursor(), old(self).exits_on_escape()),
            final(self).last_cursor() == cursor_after(raw, old(self).last_cursor()),
            final(self).exits_on_escape() == old(self).exits_on_escape(),
            close == requests_close(raw, old(self).exits_on_escape()),
    {
        let ghost before = self.pending@;
        match raw {
            RawEvent::Key { code, action } => match action {
                Action::Press => {
                    if self.exit_on_esc && code == NATIVE_KEY_ESCAPE {
                        assert(self.pending@ =~= before + seq![]);
                        return true;
                    }
                    self.pending.push_back(InputEvent::Press(Button::Keyboard(map_key(code))));
                },
                Action::Release => {
                    self.pending.push_back(InputEvent::Release(Button::Keyboard(map_key(code))));
                },
                Action::Repeat => {},
            },
            RawEvent::MouseButton { code, action } => match action {
                Action::Press => {
                    self.pending.push_back(InputEvent::Press(Button::Mouse(map_mouse(code))));
                },
                Action::Release => {
                    self.pending.push_back(InputEvent::Release(Button::Mouse(map_mouse(code))));
                },
                Action::Repeat => {},
            },
            RawEvent::CursorPos(p) => {
                self.pending.push_back(InputEvent::Move(Motion::MouseCursor(p)));
                match self.last_cursor {
                    Some(l) => {
                        self.pending.push_back(InputEvent::Move(Motion::MouseRelative { from: l, to: p }));
                    },
                    None => {},
                }
                self.last_cursor = Some(p);
            },
            RawEvent::Scroll(d) => {
                self.pending.push_back(InputEvent::Move(Motion::MouseScroll(d)));
            },
            RawEvent::Char(c) => {
                self.pending.push_back(InputEvent::Text(c));
            },
            RawEvent::Other => {},
        }
        assert(self.pending@ =~= before + expand(raw, old(self).last_cursor, self.exit_on_esc));
        false
    }

    /// Translates a pumped batch of raw records in arrival order, appending
    /// what they become to the pending events. Returns whether some record
    /// asks for the window to close.
    pub fn refill(&mut self, batch: Vec<RawEvent<P>>) -> (close: bool)
        ensures
            final(self).pending_events()
                == old(self).pending_events() + expand_all(batch@, old(self).last_cursor(), old(self).exits_on_escape()),
            final(self).last_cursor() == cursor_after_all(batch@, old(self).last_cursor()),
            final(self).exits_on_escape() == old(self).exits_on_escape(),
            close == requests_close_any(batch@, old(self).exits_on_escape()),
    {
        let mut close = false;
        let mut i: usize = 0;
        while i < batch.len()
            invariant
                i <= batch@.len(),
                self.exit_on_esc == old(self).exit_on_esc,
                self.pending@ == old(self).pending@ + expand_all(batch@.take(i as int), old(self).last_cursor, self.exit_on_esc),
                self.last_cursor == cursor_after_all(batch@.take(i as int), old(self).last_cursor),
                close == exists|j: int| 0 <= j < i && #[trigger] requests_close(batch@[j], self.exit_on_esc),
            decreases batch@.len() - i,
        {
            let raw = batch[i];
            let c = self.translate(raw);
            close = close || c;
            proof {
                let next = batch@.take(i + 1);
                assert(next.drop_last() =~= batch@.take(i as int));
                assert(next.last() == raw);
            }
            i = i + 1;
        }
        assert(batch@.take(i as int) =~= batch@);
        close
    }

    /// Hands out the oldest pending event, if any.
    pub fn next_event(&mut self) -> (r: Option<InputEvent<P>>)
        ensures
            (r, final(self).pending_events()) == take_front(old(self).pending_events()),
            final(self).last_cursor() == old(self).last_cursor(),
            final(self).exits_on_escape() == old(self).exits_on_escape(),
    {
        self.pending.pop_front()
    }

    /// Records a change of cursor capture. Releasing the capture drops the
    /// relative-motion baseline, so that the next position reported yields no
    /// relative motion; taking it keeps the baseline.
    pub fn capture_cursor(&mut self, enabled: bool)
        ensures
            final(self).pending_events() == old(self).pending_events(),
            final(self).last_cursor() == (if enabled { old(self).last_cursor() } else { None }),
            final(self).exits_on_escape() == old(self).exits_on_escape(),
    {
        if !enabled {
            self.last_cursor = None;
        }
    }
}

} // verus!
