use vstd::prelude::*;

verus! {

/// A pair of non-negative coordinates: a cell position or a size.
#[derive(Clone, Copy, Debug, PartialEq, Eq, Structural)]
pub struct Vec2 {
    pub x: usize,
    pub y: usize,
}

impl Vec2 {
    /// The vector `(x, y)`.
    pub fn new(x: usize, y: usize) -> (v: Vec2)
        ensures
            v.x == x,
            v.y == y,
    {
        Vec2 { x, y }
    }

    /// The vector `(0, 0)`.
    pub fn zero() -> (v: Vec2)
        ensures
            v == (Vec2 { x: 0, y: 0 }),
    {
        Vec2 { x: 0, y: 0 }
    }

    /// Converts signed terminal coordinates the way `as usize` does.
    pub fn from_i32_pair(x: i32, y: i32) -> (v: Vec2)
        ensures
            v.x == x as usize,
            v.y == y as usize,
    {
        Vec2 { x: x as usize, y: y as usize }
    }
}

} // verus!
