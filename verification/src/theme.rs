use vstd::prelude::*;

verus! {

/// One of the eight basic terminal colours.
#[derive(Clone, Copy, Debug, PartialEq, Eq, Structural)]
pub enum BaseColor {
    Black,
    Red,
    Green,
    Yellow,
    Blue,
    Magenta,
    Cyan,
    White,
}

/// A colour as the user interface asks for it.
#[derive(Clone, Copy, Debug, PartialEq, Eq, Structural)]
pub enum Color {
    /// Whatever colour the terminal currently uses for the role.
    TerminalDefault,
    /// The dark variant of a base colour.
    Dark(BaseColor),
    /// The light variant of a base colour.
    Light(BaseColor),
    /// A true colour, one byte per channel.
    Rgb(u8, u8, u8),
    /// A colour on the 6x6x6 cube: each channel in `0..=5`.
    RgbLowRes(u8, u8, u8),
}

/// A foreground and a background colour.
#[derive(Clone, Copy, Debug, PartialEq, Eq, Structural)]
pub struct ColorPair {
    pub front: Color,
    pub back: Color,
}

/// A text effect.
#[derive(Clone, Copy, Debug, PartialEq, Eq, Structural)]
pub enum Effect {
    Simple,
    Reverse,
    Bold,
    Italic,
    Underline,
}

} // verus!
