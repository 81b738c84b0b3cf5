//! Pointer events and the cursor-position tracker.
//!
//! Button and scroll events do not carry a position of their own, so a
//! small tracker retains the last known cursor position and attaches it to
//! them before they enter the tree.

use vstd::prelude::*;

use crate::comp::Comp;
use crate::event::{InputEvent, SystemMessage};
use crate::model::Model;

verus! {

/// A pointer button.
#[derive(Clone, Copy, Debug, Hash, PartialEq, Eq)]
pub enum MouseButton {
    Left,
    Right,
    Middle,
    Other(u16),
}

/// A cursor position in integer units.
#[derive(Clone, Copy, Debug, PartialEq, Eq, Structural)]
pub struct MousePos {
    pub x: i64,
    pub y: i64,
}

/// A button press at a position.
#[derive(Clone, Copy, Debug, PartialEq, Eq)]
pub struct MouseDown {
    pub pos: MousePos,
    pub button: MouseButton,
}

/// A scroll step at a position.
#[derive(Clone, Copy, Debug, PartialEq, Eq)]
pub struct MouseScroll {
    pub pos: MousePos,
    pub delta: (i64, i64),
}

/// Retains the last known cursor position and offset.
#[derive(Clone, Copy, Debug, PartialEq, Eq)]
pub struct MouseController {
    last_pos: Option<MousePos>,
    last_offset: Option<MousePos>,
}

impl MouseController {
    /// The last position handed to [`MouseController::update_pos`], if any.
    pub closed spec fn spec_last_pos(self) -> Option<MousePos> {
        self.last_pos
    }

    /// The offset between the last two positions, if two were seen.
    pub closed spec fn spec_last_offset(self) -> Option<MousePos> {
        self.last_offset
    }

    /// A tracker that has seen no position yet.
    pub fn new() -> (r: MouseController)
        ensures
            r.spec_last_pos() is None,
            r.spec_last_offset() is None,
    {
        MouseController { last_pos: None, last_offset: None }
    }

    /// Records a new cursor position and the offset from the previous one.
    /// The y offset is reversed, since screen y grows downwards while the
    /// drawing plane's y grows upwards.
    pub fn update_pos(&mut self, x: i64, y: i64)
        requires
            -0x1000_0000_0000_0000 <= x <= 0x1000_0000_0000_0000,
            -0x1000_0000_0000_0000 <= y <= 0x1000_0000_0000_0000,
            match old(self).spec_last_pos() {
                Some(last) => -0x1000_0000_0000_0000 <= last.x <= 0x1000_0000_0000_0000
                    && -0x1000_0000_0000_0000 <= last.y <= 0x1000_0000_0000_0000,
                None => true,
            },
        ensures
            final(self).spec_last_pos() == Some(MousePos { x, y }),
            final(self).spec_last_offset() == Some(
                match old(self).spec_last_pos() {
                    Some(last) => MousePos { x: (x - last.x) as i64, y: (last.y - y) as i64 },
                    None => MousePos { x: 0, y: 0 },
                },
            ),
    {
        let offset = match self.last_pos {
            Some(last) => MousePos { x: x - last.x, y: last.y - y },
            None => MousePos { x: 0, y: 0 },
        };
        self.last_pos = Some(MousePos { x, y });
        self.last_offset = Some(offset);
    }

    /// The last known position, or the origin if none was seen yet.
    pub fn last_pos(&self) -> (r: MousePos)
        ensures
            r == match self.spec_last_pos() {
                Some(last) => last,
                None => MousePos { x: 0, y: 0 },
            },
    {
        match self.last_pos {
            Some(last) => last,
            None => MousePos { x: 0, y: 0 },
        }
    }

    /// Hands the driver a press of `button` at the last known position.
    pub fn pressed_comp<M: Model>(&self, comp: &mut Comp<M>, button: MouseButton)
        ensures
            Comp::cycle_rel(
                *old(comp),
                *final(comp),
                SystemMessage::Input(
                    InputEvent::MouseDown(
                        MouseDown {
                            pos: match self.spec_last_pos() {
                                Some(last) => last,
                                None => MousePos { x: 0, y: 0 },
                            },
                            button,
                        },
                    ),
                ),
            ),
    {
        let pos = self.last_pos();
        comp.send_system_msg(SystemMessage::Input(InputEvent::mouse_down(pos, button)))
    }

    /// Hands the driver a scroll step at the last known position.
    pub fn mouse_scroll<M: Model>(&self, comp: &mut Comp<M>, delta: (i64, i64))
        ensures
            Comp::cycle_rel(
                *old(comp),
                *final(comp),
                SystemMessage::Input(
                    InputEvent::MouseScroll(
                        MouseScroll {
                            pos: match self.spec_last_pos() {
                                Some(last) => last,
                                None => MousePos { x: 0, y: 0 },
                            },
                            delta,
                        },
                    ),
                ),
            ),
    {
        let pos = self.last_pos();
        comp.send_system_msg(
            SystemMessage::Input(InputEvent::mouse_scroll(MouseScroll { pos, delta })),
        )
    }
}

} // verus!
