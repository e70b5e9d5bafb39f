//! Properties of the translation, stated over the model that the translator's
//! contracts use.

use vstd::prelude::*;
use crate::event::{
    Action, Button, InputEvent, Motion, RawEvent, cursor_after, cursor_after_all, expand, expand_all,
    requests_close, take_front,
};
use crate::keyboard::{Key, NATIVE_KEY_ESCAPE};

verus! {

/// Translating two batches one after the other gives the translations of the
/// first batch followed by those of the second, which starts from the pointer
/// position the first left; so the events of distinct records keep the
/// records' order.
pub proof fn lemma_batches_keep_order<P>(a: Seq<RawEvent<P>>, b: Seq<RawEvent<P>>, last: Option<P>, exit_on_esc: bool)
    ensures
        cursor_after_all(a + b, last) == cursor_after_all(b, cursor_after_all(a, last)),
        expand_all(a + b, last, exit_on_esc)
            == expand_all(a, last, exit_on_esc) + expand_all(b, cursor_after_all(a, last), exit_on_esc),
    decreases b.len(),
{
    if b.len() == 0 {
        assert(a + b =~= a);
        assert(expand_all(a, last, exit_on_esc) + seq![] =~= expand_all(a, last, exit_on_esc));
    } else {
        lemma_batches_keep_order(a, b.drop_last(), last, exit_on_esc);
        assert((a + b).drop_last() =~= a + b.drop_last());
        assert((a + b).last() == b.last());
        let mid = cursor_after_all(a, last);
        let rest = expand(b.last(), cursor_after_all(b.drop_last(), mid), exit_on_esc);
        assert(expand_all(a, last, exit_on_esc) + expand_all(b.drop_last(), mid, exit_on_esc) + rest
            =~= expand_all(a, last, exit_on_esc) + (expand_all(b.drop_last(), mid, exit_on_esc) + rest));
    }
}

/// A pointer position with a baseline becomes the absolute position first and
/// the relative motion from the baseline second.
pub proof fn lemma_absolute_before_relative<P>(p: P, l: P, exit_on_esc: bool)
    ensures
        expand(RawEvent::CursorPos(p), Some(l), exit_on_esc) == seq![
            InputEvent::Move(Motion::MouseCursor(p)),
            InputEvent::Move(Motion::MouseRelative { from: l, to: p }),
        ],
{
}

/// Without a baseline, the first pointer position of a batch becomes the
/// absolute position alone.
pub proof fn lemma_first_motion_has_no_relative<P>(raws: Seq<RawEvent<P>>, i: int, exit_on_esc: bool)
    requires
        0 <= i < raws.len(),
        raws[i] is CursorPos,
        forall|j: int| 0 <= j < i ==> !(#[trigger] raws[j] is CursorPos),
    ensures
        expand_all(raws.take(i + 1), None, exit_on_esc)
            == expand_all(raws.take(i), None, exit_on_esc).push(InputEvent::Move(Motion::MouseCursor(raws[i]->CursorPos_0))),
{
    lemma_no_motion_keeps_baseline(raws.take(i), None);
    assert(raws.take(i + 1).drop_last() =~= raws.take(i));
}

proof fn lemma_no_motion_keeps_baseline<P>(raws: Seq<RawEvent<P>>, last: Option<P>)
    requires
        forall|j: int| 0 <= j < raws.len() ==> !(#[trigger] raws[j] is CursorPos),
    ensures
        cursor_after_all(raws, last) == last,
    decreases raws.len(),
{
    if raws.len() > 0 {
        lemma_no_motion_keeps_baseline(raws.drop_last(), last);
        assert(!(raws[raws.len() - 1] is CursorPos));
    }
}

/// A repeated key becomes no event and asks nothing of the window.
pub proof fn lemma_repeat_is_silent<P>(code: i32, last: Option<P>, exit_on_esc: bool)
    ensures
        expand(RawEvent::<P>::Key { code, action: Action::Repeat }, last, exit_on_esc) == Seq::<InputEvent<P>>::empty(),
        !requests_close(RawEvent::<P>::Key { code, action: Action::Repeat }, exit_on_esc),
{
    assert(expand(RawEvent::<P>::Key { code, action: Action::Repeat }, last, exit_on_esc)
        =~= Seq::<InputEvent<P>>::empty());
}

/// An Escape press asks for the window to close exactly when the window exits
/// on Escape; otherwise it is an ordinary press of the Escape key.
pub proof fn lemma_escape_gating<P>(last: Option<P>, exit_on_esc: bool)
    ensures
        requests_close(RawEvent::<P>::Key { code: NATIVE_KEY_ESCAPE, action: Action::Press }, exit_on_esc)
            == exit_on_esc,
        expand(RawEvent::<P>::Key { code: NATIVE_KEY_ESCAPE, action: Action::Press }, last, exit_on_esc)
            == (if exit_on_esc {
                Seq::<InputEvent<P>>::empty()
            } else {
                seq![InputEvent::<P>::Press(Button::Keyboard(Key::Escape))]
            }),
{
    if exit_on_esc {
        assert(expand(RawEvent::<P>::Key { code: NATIVE_KEY_ESCAPE, action: Action::Press }, last, exit_on_esc)
            =~= Seq::<InputEvent<P>>::empty());
    }
}

/// A pump that brings nothing adds no event, moves no baseline, and an empty
/// queue then hands out nothing.
pub proof fn lemma_empty_pump<P>(last: Option<P>, exit_on_esc: bool)
    ensures
        expand_all(Seq::<RawEvent<P>>::empty(), last, exit_on_esc) == Seq::<InputEvent<P>>::empty(),
        cursor_after_all(Seq::<RawEvent<P>>::empty(), last) == last,
        take_front(Seq::<InputEvent<P>>::empty()).0 == None::<InputEvent<P>>,
{
}

/// What `k` successive takes from the front of a queue hand out, and what is
/// left.
pub open spec fn drain<E>(s: Seq<E>, k: nat) -> (Seq<Option<E>>, Seq<E>)
    decreases k,
{
    if k == 0 {
        (seq![], s)
    } else {
        let (first, rest) = take_front(s);
        let (more, left) = drain(rest, (k - 1) as nat);
        (seq![first] + more, left)
    }
}

/// Taking from the front of a queue of `k` events `k` times hands the events
/// out in order and empties it, so that the next take finds it empty.
pub proof fn lemma_fifo_drain<E>(s: Seq<E>)
    ensures
        drain(s, s.len()).0 == s.map_values(|e: E| Some(e)),
        drain(s, s.len()).1 == Seq::<E>::empty(),
        take_front(drain(s, s.len()).1).0 == None::<E>,
    decreases s.len(),
{
    if s.len() > 0 {
        lemma_fifo_drain(s.drop_first());
        assert(s.map_values(|e: E| Some(e))
            =~= seq![Some(s[0])] + s.drop_first().map_values(|e: E| Some(e)));
    } else {
        assert(s.map_values(|e: E| Some(e)) =~= seq![]);
        assert(s =~= Seq::<E>::empty());
    }
}

} // verus!
