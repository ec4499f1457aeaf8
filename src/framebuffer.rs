//! Plain values used when drawing to a framebuffer.

use vstd::prelude::*;

verus! {

/// A 2D position in a framebuffer; (0, 0) is the top-left corner.
#[derive(Debug, Clone, Copy, PartialEq, Eq, Structural)]
pub struct Position {
    /// Horizontal position, growing to the right.
    pub x: usize,
    /// Vertical position, growing downwards.
    pub y: usize,
}

impl Position {
    /// The position at column `x` and row `y`.
    pub fn new(x: usize, y: usize) -> (r: Self)
        ensures
            r.x == x,
            r.y == y,
    {
        Self { x, y }
    }
}

/// An 8-bit RGB color.
#[derive(Debug, Clone, Copy, PartialEq, Eq, Structural)]
pub struct Color {
    /// Red component.
    pub red: u8,
    /// Green component.
    pub green: u8,
    /// Blue component.
    pub blue: u8,
}

impl Color {
    /// The color with the given components.
    pub fn rgb(red: u8, green: u8, blue: u8) -> (r: Self)
        ensures
            r.red == red,
            r.green == green,
            r.blue == blue,
    {
        Self { red, green, blue }
    }
}

} // verus!
