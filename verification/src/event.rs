//! System events delivered to the driver, one per tick.

use vstd::prelude::*;

use crate::keyboard::KeyboardEvent;
use crate::mouse::{MouseButton, MouseDown, MousePos, MouseScroll};

verus! {

/// A raw input event.
#[derive(Clone, Copy, Debug, PartialEq)]
pub enum InputEvent {
    MouseDown(MouseDown),
    MouseScroll(MouseScroll),
    KeyDown(KeyboardEvent),
    KeyUp(KeyboardEvent),
    Char(char),
}

impl InputEvent {
    /// A button press at `pos`.
    pub fn mouse_down(pos: MousePos, button: MouseButton) -> (r: InputEvent)
        ensures
            r == InputEvent::MouseDown(MouseDown { pos, button }),
    {
        InputEvent::MouseDown(MouseDown { pos, button })
    }

    /// A scroll step.
    pub fn mouse_scroll(scroll: MouseScroll) -> (r: InputEvent)
        ensures
            r == InputEvent::MouseScroll(scroll),
    {
        InputEvent::MouseScroll(scroll)
    }
}

/// An external event delivered once per tick.  `Draw` carries the elapsed
/// time since the previous frame, in milliseconds.
#[derive(Clone, Copy, Debug, PartialEq)]
pub enum SystemMessage {
    Input(InputEvent),
    Draw(u64),
    WindowResized { width: u32, height: u32 },
}

} // verus!
