//! Keyboard events and the stateless keyboard adapter.

use vstd::prelude::*;

use crate::comp::Comp;
use crate::event::{InputEvent, SystemMessage};
use crate::model::Model;

verus! {

/// A platform-independent key identifier.
#[derive(Clone, Copy, Debug, Hash, PartialEq, Eq, Structural)]
pub enum VirtualKeyCode {
    Key1,
    Key2,
    Key3,
    Key4,
    Key5,
    Key6,
    Key7,
    Key8,
    Key9,
    Key0,
    A,
    B,
    C,
    D,
    E,
    F,
    G,
    H,
    I,
    J,
    K,
    L,
    M,
    N,
    O,
    P,
    Q,
    R,
    S,
    T,
    U,
    V,
    W,
    X,
    Y,
    Z,
    Escape,
    F1,
    F2,
    F3,
    F4,
    F5,
    F6,
    F7,
    F8,
    F9,
    F10,
    F11,
    F12,
    F13,
    F14,
    F15,
    F16,
    F17,
    F18,
    F19,
    F20,
    F21,
    F22,
    F23,
    F24,
    Snapshot,
    Scroll,
    Pause,
    Insert,
    Home,
    Delete,
    End,
    PageDown,
    PageUp,
    Left,
    Up,
    Right,
    Down,
    Backspace,
    Enter,
    Space,
    Compose,
    Caret,
    Numlock,
    Numpad0,
    Numpad1,
    Numpad2,
    Numpad3,
    Numpad4,
    Numpad5,
    Numpad6,
    Numpad7,
    Numpad8,
    Numpad9,
    NumpadAdd,
    NumpadDivide,
    NumpadDecimal,
    NumpadComma,
    NumpadEnter,
    NumpadEquals,
    NumpadMultiply,
    NumpadSubtract,
    AbntC1,
    AbntC2,
    Apostrophe,
    Apps,
    Asterisk,
    At,
    Ax,
    Backslash,
    Calculator,
    Capital,
    Colon,
    Comma,
    Convert,
    Equals,
    Grave,
    Kana,
    Kanji,
    LAlt,
    LBracket,
    LControl,
    LShift,
    LWin,
    Mail,
    MediaSelect,
    MediaStop,
    Minus,
    Mute,
    MyComputer,
    NavigateForward,
    NavigateBackward,
    NextTrack,
    NoConvert,
    OEM102,
    Period,
    PlayPause,
    Plus,
    Power,
    PrevTrack,
    RAlt,
    RBracket,
    RControl,
    RShift,
    RWin,
    Semicolon,
    Slash,
    Sleep,
    Stop,
    Sysrq,
    Tab,
    Underline,
    Unlabeled,
    VolumeDown,
    VolumeUp,
    Wake,
    WebBack,
    WebFavorites,
    WebForward,
    WebHome,
    WebRefresh,
    WebSearch,
    WebStop,
    Yen,
    Copy,
    Paste,
    Cut,
}

/// A key press or release: the hardware scancode together with the
/// platform-independent identifier when one is known.
#[derive(Clone, Copy, Debug, PartialEq, Eq)]
pub struct KeyboardEvent {
    pub scancode: u32,
    pub keycode: Option<VirtualKeyCode>,
}

/// The stateless keyboard adapter: it only tags events and forwards them.
#[derive(Clone, Copy, Debug, Default, PartialEq, Eq, Structural)]
pub struct KeyboardController {}

impl KeyboardController {
    /// Makes the adapter.
    pub fn new() -> (r: KeyboardController)
        ensures
            r == (KeyboardController {}),
    {
        KeyboardController {}
    }

    /// Hands the driver a key press.
    pub fn pressed_comp<M: Model>(&self, comp: &mut Comp<M>, event: KeyboardEvent)
        ensures
            Comp::cycle_rel(
                *old(comp),
                *final(comp),
                SystemMessage::Input(InputEvent::KeyDown(event)),
            ),
    {
        comp.send_system_msg(SystemMessage::Input(InputEvent::KeyDown(event)))
    }

    /// Hands the driver a key release.
    pub fn released_comp<M: Model>(&self, comp: &mut Comp<M>, event: KeyboardEvent)
        ensures
            Comp::cycle_rel(
                *old(comp),
                *final(comp),
                SystemMessage::Input(InputEvent::KeyUp(event)),
            ),
    {
        comp.send_system_msg(SystemMessage::Input(InputEvent::KeyUp(event)))
    }

    /// Hands the driver an input character.
    pub fn input_char<M: Model>(&self, comp: &mut Comp<M>, ch: char)
        ensures
            Comp::cycle_rel(
                *old(comp),
                *final(comp),
                SystemMessage::Input(InputEvent::Char(ch)),
            ),
    {
        comp.send_system_msg(SystemMessage::Input(InputEvent::Char(ch)))
    }
}

} // verus!
