//! What a frame is made of: filled rectangles of grid cells, each in one of
//! the game's paints.

use vstd::prelude::*;

verus! {

/// The paints of the game. What colour each one is is the renderer's affair.
#[derive(Clone, Copy, PartialEq, Eq, Structural, Debug)]
pub enum Paint {
    /// The snake's body.
    Snake,
    /// The food.
    Food,
    /// The border of the board.
    Border,
    /// The veil over a board whose run has ended.
    GameOver,
}

/// A filled rectangle of grid cells: its top left cell and its size in cells.
#[derive(Clone, Copy, PartialEq, Eq, Structural, Debug)]
pub struct Rect {
    pub paint: Paint,
    pub x: i32,
    pub y: i32,
    pub width: i32,
    pub height: i32,
}

impl Rect {
    /// Whether this is the rectangle in `paint` at `at`, `width` cells wide
    /// and `height` cells high.
    pub open spec fn is(self, paint: Paint, at: (int, int), width: int, height: int) -> bool {
        &&& self.paint == paint
        &&& self.x == at.0
        &&& self.y == at.1
        &&& self.width == width
        &&& self.height == height
    }

    /// Whether this is the single cell `at` in `paint`.
    pub open spec fn is_block(self, paint: Paint, at: (int, int)) -> bool {
        self.is(paint, at, 1, 1)
    }

    /// The single cell `(x, y)` in `paint`.
    pub fn block(paint: Paint, x: i32, y: i32) -> (r: Rect)
        ensures
            r.is_block(paint, (x as int, y as int)),
    {
        Rect { paint, x, y, width: 1, height: 1 }
    }
}

} // verus!
