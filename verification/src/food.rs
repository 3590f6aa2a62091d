//! The food that the snake is after.

use crate::grid::GridPosition;
use crate::rng::Rng;
use vstd::prelude::*;

verus! {

/// The one piece of food on the grid. It is never removed, only moved.
pub struct Food {
    pub pos: GridPosition,
}

impl Food {
    /// Food at the given cell.
    pub fn new(pos: GridPosition) -> (f: Food)
        ensures
            f.pos == pos,
    {
        Food { pos }
    }

    /// Moves the food to a cell drawn from a grid of `grid_width` columns and
    /// `grid_height` rows. Cells under the snake are not left out: the food
    /// may come to lie on the snake.
    pub fn respawn(&mut self, rng: &mut Rng, grid_width: i16, grid_height: i16)
        requires
            old(rng).valid(),
            grid_width > 0,
            grid_height > 0,
        ensures
            final(self).pos == GridPosition::drawn_by(*old(rng), grid_width, grid_height),
            *final(rng) == GridPosition::rng_after(*old(rng), grid_width, grid_height),
            final(rng).valid(),
            final(self).pos.in_grid(grid_width as int, grid_height as int),
    {
        self.pos = GridPosition::random(rng, grid_width, grid_height);
    }
}

} // verus!
