//! Event listeners.
//!
//! A listener is a typed callback value keyed by an event kind; all
//! listeners of the matching kind on a node fire, in registration order,
//! and each produces exactly one application message.  Callbacks are values
//! of a user type implementing [`Handler`]; the trait pairs every callback
//! with a specification function, so that what a dispatch pass produces is
//! stated exactly in terms of the handler's own specification.

use vstd::prelude::*;

use crate::keyboard::KeyboardEvent;
use crate::mouse::{MouseDown, MouseScroll};
use crate::shape::Shape;

verus! {

/// The kinds of events a listener can subscribe to.
#[derive(Clone, Copy, Debug, Hash, PartialEq, Eq, Structural)]
pub enum EventName {
    MouseDown,
    Blur,
    MouseScroll,
    KeyDown,
    KeyUp,
    InputChar,
    Draw,
    WindowResized,
}

/// A user-supplied callback value.
///
/// Handlers are total: they always produce a message and never fail.  The
/// pointer and keyboard callbacks receive mutable access to the owning
/// node's shape — and to nothing else, so listener invocation can never
/// change the structure of the tree.  Each callback is pinned to its
/// specification function, so contracts over a dispatch pass can name the
/// messages produced.
pub trait Handler: Sized {
    type Message;

    /// What a press inside the shape produces.
    spec fn spec_mouse_down(self, shape: Shape, press: MouseDown) -> (Shape, Self::Message);

    /// Called for a press inside the owning shape.
    fn on_mouse_down(&self, shape: &mut Shape, press: MouseDown) -> (msg: Self::Message)
        ensures
            (*final(shape), msg) == self.spec_mouse_down(*old(shape), press),
    ;

    /// What a press outside the shape produces.
    spec fn spec_blur(self, shape: Shape, press: MouseDown) -> (Shape, Self::Message);

    /// Called for a press outside the owning shape.
    fn on_blur(&self, shape: &mut Shape, press: MouseDown) -> (msg: Self::Message)
        ensures
            (*final(shape), msg) == self.spec_blur(*old(shape), press),
    ;

    /// What a scroll step inside the shape produces.
    spec fn spec_mouse_scroll(self, shape: Shape, scroll: MouseScroll) -> (Shape, Self::Message);

    /// Called for a scroll step inside the owning shape.
    fn on_mouse_scroll(&self, shape: &mut Shape, scroll: MouseScroll) -> (msg: Self::Message)
        ensures
            (*final(shape), msg) == self.spec_mouse_scroll(*old(shape), scroll),
    ;

    /// What a key press produces.
    spec fn spec_key_down(self, shape: Shape, event: KeyboardEvent) -> (Shape, Self::Message);

    /// Called for a key press.
    fn on_key_down(&self, shape: &mut Shape, event: KeyboardEvent) -> (msg: Self::Message)
        ensures
            (*final(shape), msg) == self.spec_key_down(*old(shape), event),
    ;

    /// What a key release produces.
    spec fn spec_key_up(self, shape: Shape, event: KeyboardEvent) -> (Shape, Self::Message);

    /// Called for a key release.
    fn on_key_up(&self, shape: &mut Shape, event: KeyboardEvent) -> (msg: Self::Message)
        ensures
            (*final(shape), msg) == self.spec_key_up(*old(shape), event),
    ;

    /// What an input character produces.
    spec fn spec_input_char(self, shape: Shape, ch: char) -> (Shape, Self::Message);

    /// Called for an input character.
    fn on_input_char(&self, shape: &mut Shape, ch: char) -> (msg: Self::Message)
        ensures
            (*final(shape), msg) == self.spec_input_char(*old(shape), ch),
    ;

    /// What a frame tick produces, given the elapsed milliseconds.
    spec fn spec_draw(self, elapsed_ms: u64) -> Self::Message;

    /// Called once per frame tick.
    fn on_draw(&self, elapsed_ms: u64) -> (msg: Self::Message)
        ensures
            msg == self.spec_draw(elapsed_ms),
    ;

    /// What a window resize produces.
    spec fn spec_window_resized(self, width: u32, height: u32) -> Self::Message;

    /// Called when the window was resized.
    fn on_window_resized(&self, width: u32, height: u32) -> (msg: Self::Message)
        ensures
            msg == self.spec_window_resized(width, height),
    ;
}

/// A callback value tagged with the event kind it subscribes to.
pub enum Listener<H> {
    OnMouseDown(H),
    OnBlur(H),
    OnMouseScroll(H),
    OnKeyDown(H),
    OnKeyUp(H),
    OnInputChar(H),
    Draw(H),
    WindowResized(H),
}

impl<H> Listener<H> {
    /// The event kind this listener subscribes to.
    pub open spec fn spec_kind(self) -> EventName {
        match self {
            Listener::OnMouseDown(_) => EventName::MouseDown,
            Listener::OnBlur(_) => EventName::Blur,
            Listener::OnMouseScroll(_) => EventName::MouseScroll,
            Listener::OnKeyDown(_) => EventName::KeyDown,
            Listener::OnKeyUp(_) => EventName::KeyUp,
            Listener::OnInputChar(_) => EventName::InputChar,
            Listener::Draw(_) => EventName::Draw,
            Listener::WindowResized(_) => EventName::WindowResized,
        }
    }

    /// The event kind this listener subscribes to.
    pub fn kind(&self) -> (r: EventName)
        ensures
            r == self.spec_kind(),
    {
        match self {
            Listener::OnMouseDown(_) => EventName::MouseDown,
            Listener::OnBlur(_) => EventName::Blur,
            Listener::OnMouseScroll(_) => EventName::MouseScroll,
            Listener::OnKeyDown(_) => EventName::KeyDown,
            Listener::OnKeyUp(_) => EventName::KeyUp,
            Listener::OnInputChar(_) => EventName::InputChar,
            Listener::Draw(_) => EventName::Draw,
            Listener::WindowResized(_) => EventName::WindowResized,
        }
    }
}

/// What one node fires for one incoming event, after hit-testing: the event
/// kind whose listeners are addressed, with its payload.
#[derive(Clone, Copy, Debug)]
pub enum Firing {
    MouseDown(MouseDown),
    Blur(MouseDown),
    MouseScroll(MouseScroll),
    KeyDown(KeyboardEvent),
    KeyUp(KeyboardEvent),
    InputChar(char),
    Draw(u64),
    WindowResized(u32, u32),
}

impl Firing {
    /// The event kind this firing addresses.
    pub open spec fn spec_kind(self) -> EventName {
        match self {
            Firing::MouseDown(_) => EventName::MouseDown,
            Firing::Blur(_) => EventName::Blur,
            Firing::MouseScroll(_) => EventName::MouseScroll,
            Firing::KeyDown(_) => EventName::KeyDown,
            Firing::KeyUp(_) => EventName::KeyUp,
            Firing::InputChar(_) => EventName::InputChar,
            Firing::Draw(_) => EventName::Draw,
            Firing::WindowResized(_, _) => EventName::WindowResized,
        }
    }
}

/// Whether the listener subscribes to the kind the firing addresses.
pub open spec fn applicable<H>(l: Listener<H>, f: Firing) -> bool {
    l.spec_kind() == f.spec_kind()
}

/// What one listener produces for one firing: the shape afterwards and the
/// message, or nothing when the listener subscribes to another kind.
pub open spec fn fire_one<H: Handler>(l: Listener<H>, shape: Shape, f: Firing) -> Option<
    (Shape, H::Message),
> {
    match (l, f) {
        (Listener::OnMouseDown(h), Firing::MouseDown(press)) => Some(
            h.spec_mouse_down(shape, press),
        ),
        (Listener::OnBlur(h), Firing::Blur(press)) => Some(h.spec_blur(shape, press)),
        (Listener::OnMouseScroll(h), Firing::MouseScroll(scroll)) => Some(
            h.spec_mouse_scroll(shape, scroll),
        ),
        (Listener::OnKeyDown(h), Firing::KeyDown(event)) => Some(h.spec_key_down(shape, event)),
        (Listener::OnKeyUp(h), Firing::KeyUp(event)) => Some(h.spec_key_up(shape, event)),
        (Listener::OnInputChar(h), Firing::InputChar(ch)) => Some(h.spec_input_char(shape, ch)),
        (Listener::Draw(h), Firing::Draw(elapsed)) => Some((shape, h.spec_draw(elapsed))),
        (Listener::WindowResized(h), Firing::WindowResized(w, hh)) => Some(
            (shape, h.spec_window_resized(w, hh)),
        ),
        _ => None,
    }
}

/// Folds one firing through a listener sequence in order: every applicable
/// listener fires, each sees the shape as the previous one left it, and the
/// messages come out in registration order.
pub open spec fn fold_fire<H: Handler>(ls: Seq<Listener<H>>, shape: Shape, f: Firing) -> (
    Shape,
    Seq<H::Message>,
)
    decreases ls.len(),
{
    if ls.len() == 0 {
        (shape, Seq::<H::Message>::empty())
    } else {
        match fire_one(ls[0], shape, f) {
            Some(r) => {
                let rest = fold_fire(ls.drop_first(), r.0, f);
                (rest.0, seq![r.1] + rest.1)
            }
            None => fold_fire(ls.drop_first(), shape, f),
        }
    }
}

/// The subsequence of listeners that subscribe to the firing's kind, in
/// order.
pub open spec fn matching<H>(ls: Seq<Listener<H>>, f: Firing) -> Seq<Listener<H>>
    decreases ls.len(),
{
    if ls.len() == 0 {
        Seq::<Listener<H>>::empty()
    } else if applicable(ls[0], f) {
        seq![ls[0]] + matching(ls.drop_first(), f)
    } else {
        matching(ls.drop_first(), f)
    }
}

/// Every listener of the matching subsequence subscribes to the firing's
/// kind.
pub proof fn lemma_matching_applicable<H>(ls: Seq<Listener<H>>, f: Firing)
    ensures
        forall|i: int|
            0 <= i < matching(ls, f).len() ==> applicable(#[trigger] matching(ls, f)[i], f),
    decreases ls.len(),
{
    if ls.len() > 0 {
        lemma_matching_applicable(ls.drop_first(), f);
        assert forall|i: int|
            0 <= i < matching(ls, f).len() implies applicable(matching(ls, f)[i], f) by {
            if applicable(ls[0], f) {
                assert(matching(ls, f) == seq![ls[0]] + matching(ls.drop_first(), f));
                if i == 0 {
                    assert(matching(ls, f)[0] == ls[0]);
                } else {
                    assert(matching(ls, f)[i] == matching(ls.drop_first(), f)[i - 1]);
                }
            } else {
                assert(matching(ls, f) == matching(ls.drop_first(), f));
                assert(matching(ls, f)[i] == matching(ls.drop_first(), f)[i]);
            }
        }
    }
}

/// Folding a firing through a listener sequence is folding it through the
/// matching subsequence alone: listeners of other kinds contribute nothing
/// and change nothing.
pub proof fn lemma_fold_fire_matching<H: Handler>(ls: Seq<Listener<H>>, shape: Shape, f: Firing)
    ensures
        fold_fire(ls, shape, f) == fold_fire(matching(ls, f), shape, f),
    decreases ls.len(),
{
    if ls.len() == 0 {
    } else if applicable(ls[0], f) {
        let fired = fire_one(ls[0], shape, f);
        assert(fired is Some);
        let pair = fired->0;
        lemma_fold_fire_matching(ls.drop_first(), pair.0, f);
        assert((seq![ls[0]] + matching(ls.drop_first(), f)).drop_first() =~= matching(
            ls.drop_first(),
            f,
        ));
    } else {
        assert(fire_one(ls[0], shape, f) is None);
        lemma_fold_fire_matching(ls.drop_first(), shape, f);
    }
}

/// A fold produces exactly one message per applicable listener.
pub proof fn lemma_fold_fire_len<H: Handler>(ls: Seq<Listener<H>>, shape: Shape, f: Firing)
    ensures
        fold_fire(ls, shape, f).1.len() == matching(ls, f).len(),
    decreases ls.len(),
{
    if ls.len() > 0 {
        match fire_one(ls[0], shape, f) {
            Some(r) => {
                lemma_fold_fire_len(ls.drop_first(), r.0, f);
            }
            None => {
                lemma_fold_fire_len(ls.drop_first(), shape, f);
            }
        }
    }
}

} // verus!
