use vstd::prelude::*;
use crate::geometry::Vec2;

verus! {

/// A non-character key.
#[derive(Clone, Copy, Debug, PartialEq, Eq, Structural)]
pub enum Key {
    Enter,
    Tab,
    Backspace,
    Esc,
    Left,
    Right,
    Up,
    Down,
    Ins,
    Del,
    Home,
    End,
    PageUp,
    PageDown,
    PauseBreak,
    NumpadCenter,
    F0,
    F1,
    F2,
    F3,
    F4,
    F5,
    F6,
    F7,
    F8,
    F9,
    F10,
    F11,
    F12,
}

/// A mouse button.
#[derive(Clone, Copy, Debug, PartialEq, Eq, Structural)]
pub enum MouseButton {
    Left,
    Middle,
    Right,
    Button4,
    Button5,
    Other,
}

/// What happened with the mouse.
#[derive(Clone, Copy, Debug, PartialEq, Eq, Structural)]
pub enum MouseEvent {
    Press(MouseButton),
    Release(MouseButton),
    Hold(MouseButton),
    WheelUp,
    WheelDown,
}

/// An input event as the user interface sees it.
#[derive(Clone, Debug, PartialEq, Eq)]
pub enum Event {
    WindowResize,
    Refresh,
    Char(char),
    CtrlChar(char),
    AltChar(char),
    Key(Key),
    Shift(Key),
    Alt(Key),
    AltShift(Key),
    Ctrl(Key),
    CtrlShift(Key),
    CtrlAlt(Key),
    Mouse { offset: Vec2, position: Vec2, event: MouseEvent },
    Unknown(Vec<u8>),
    Exit,
}

} // verus!
