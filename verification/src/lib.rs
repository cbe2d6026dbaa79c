//! Input translation and colour handling for a terminal backend driven by
//! BearLibTerminal, with its behaviour stated and proved.
pub mod geometry;
pub mod theme;
pub mod event;
pub mod terminal;
pub mod keymap;
pub mod colors;
pub mod backend;
pub mod input;
