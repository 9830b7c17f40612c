//! The food the snake eats.

use crate::geometry::{placeable, random_position, Borders, Position};
use vstd::prelude::*;

verus! {

/// A piece of food on the grid.
#[derive(Clone, Copy, Debug, PartialEq, Eq, Structural)]
pub struct Apple {
    pub position: Position,
}

impl Apple {
    /// An apple on a random cell inside `borders`.
    pub fn new(borders: Borders) -> (r: Apple)
        requires
            borders.valid(),
        ensures
            placeable(r.position, borders),
    {
        let mut apple = Apple { position: Position { x: 0, y: 0 } };
        apple.relocate(borders);
        apple
    }

    /// Moves the apple to a random cell inside `borders`; the cell may be
    /// the one it stood on.
    pub fn relocate(&mut self, borders: Borders)
        requires
            borders.valid(),
        ensures
            placeable(final(self).position, borders),
    {
        self.position = random_position(borders);
    }
}

} // verus!
