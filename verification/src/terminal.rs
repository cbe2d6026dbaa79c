use vstd::prelude::*;

verus! {

/// A key or mouse button as BearLibTerminal reports it.
#[derive(Clone, Copy, Debug, PartialEq, Eq, Structural)]
pub enum KeyCode {
    A,
    B,
    C,
    D,
    E,
    F,
    G,
    H,
    I,
    J,
    K,
    L,
    M,
    N,
    O,
    P,
    Q,
    R,
    S,
    T,
    U,
    V,
    W,
    X,
    Y,
    Z,
    Row1,
    Row2,
    Row3,
    Row4,
    Row5,
    Row6,
    Row7,
    Row8,
    Row9,
    Row0,
    Grave,
    Minus,
    Equals,
    LeftBracket,
    RightBracket,
    Backslash,
    Semicolon,
    Apostrophe,
    Comma,
    Period,
    Slash,
    F1,
    F2,
    F3,
    F4,
    F5,
    F6,
    F7,
    F8,
    F9,
    F10,
    F11,
    F12,
    Enter,
    Escape,
    Backspace,
    Tab,
    Space,
    Pause,
    Insert,
    Home,
    PageUp,
    Delete,
    End,
    PageDown,
    Right,
    Left,
    Down,
    Up,
    NumDivide,
    NumMultiply,
    NumMinus,
    NumPlus,
    NumEnter,
    NumPeriod,
    Num1,
    Num2,
    Num3,
    Num4,
    Num5,
    Num6,
    Num7,
    Num8,
    Num9,
    Num0,
    MouseLeft,
    MouseRight,
    MouseMiddle,
    MouseFourth,
    MouseFifth,
}

/// One input event as BearLibTerminal reports it.
#[derive(Clone, Copy, Debug, PartialEq, Eq, Structural)]
pub enum BltEvent {
    /// The terminal window was closed.
    Close,
    /// The terminal window was resized.
    Resize { width: i32, height: i32 },
    /// The mouse moved to the cell `(x, y)`.
    MouseMove { x: i32, y: i32 },
    /// The mouse wheel turned; negative is away from the user.
    MouseScroll { delta: i32 },
    /// A key or mouse button went down.
    KeyPressed { key: KeyCode, ctrl: bool, shift: bool },
    /// A key or mouse button went up.
    KeyReleased { key: KeyCode, ctrl: bool, shift: bool },
    ShiftPressed,
    ShiftReleased,
    ControlPressed,
    ControlReleased,
    AltPressed,
    AltReleased,
}

/// An RGBA colour as BearLibTerminal stores it.
#[derive(Clone, Copy, Debug, PartialEq, Eq, Structural)]
pub struct BltColor {
    pub red: u8,
    pub green: u8,
    pub blue: u8,
    pub alpha: u8,
}

impl BltColor {
    /// The fully opaque colour with the given channels.
    pub fn from_rgb(red: u8, green: u8, blue: u8) -> (c: BltColor)
        ensures
            c == (BltColor { red, green, blue, alpha: 255 }),
    {
        BltColor { red, green, blue, alpha: 0xFF }
    }
}

} // verus!
