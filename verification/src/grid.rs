//! Cells of the toroidal grid and movement between them.

use crate::direction::Direction;
use crate::rng::Rng;
use vstd::prelude::*;

verus! {

/// Number of columns of the playing field.
pub const GRID_WIDTH: i16 = 30;

/// Number of rows of the playing field.
pub const GRID_HEIGHT: i16 = 20;

/// A cell of the grid. The coordinates are signed so that a step below zero
/// can be represented before it is wrapped.
#[derive(Clone, Copy, Debug, PartialEq, Eq, Structural)]
pub struct GridPosition {
    pub x: i16,
    pub y: i16,
}

/// Calls `i16::rem_euclid`, the least non-negative remainder of `lhs` modulo
/// `rhs`. For a positive `rhs` that is the mathematical `lhs mod rhs`.
#[verifier::external_body]
fn rem_euclid(lhs: i16, rhs: i16) -> (r: i16)
    requires
        rhs > 0,
    ensures
        r == lhs as int % rhs as int,
{
    lhs.rem_euclid(rhs)
}

impl GridPosition {
    /// Whether the cell lies on a grid of the given size.
    pub open spec fn in_grid(self, width: int, height: int) -> bool {
        0 <= self.x < width && 0 <= self.y < height
    }

    /// Whether one step in `dir` from this cell can be written down before it
    /// is wrapped, that is, whether the coordinate that moves is not at the
    /// end of its machine range.
    pub open spec fn can_step(self, dir: Direction) -> bool {
        match dir {
            Direction::Up => self.y > i16::MIN,
            Direction::Down => self.y < i16::MAX,
            Direction::Left => self.x > i16::MIN,
            Direction::Right => self.x < i16::MAX,
        }
    }

    /// The cell one step away in `dir`, on a grid whose edges join: the
    /// coordinate that moves is taken modulo its dimension.
    pub open spec fn moved(self, dir: Direction, width: i16, height: i16) -> GridPosition {
        match dir {
            Direction::Up => GridPosition { x: self.x, y: ((self.y - 1) % height as int) as i16 },
            Direction::Down => GridPosition { x: self.x, y: ((self.y + 1) % height as int) as i16 },
            Direction::Left => GridPosition { x: ((self.x - 1) % width as int) as i16, y: self.y },
            Direction::Right => GridPosition { x: ((self.x + 1) % width as int) as i16, y: self.y },
        }
    }

    /// Tells whether the cell lies on a grid of `grid_width` columns and
    /// `grid_height` rows.
    pub fn is_in_grid(self, grid_width: i16, grid_height: i16) -> (r: bool)
        ensures
            r == self.in_grid(grid_width as int, grid_height as int),
    {
        0 <= self.x && self.x < grid_width && 0 <= self.y && self.y < grid_height
    }

    /// The cell with the given coordinates.
    pub fn new(x: i16, y: i16) -> (p: GridPosition)
        ensures
            p.x == x,
            p.y == y,
    {
        GridPosition { x, y }
    }

    /// The cell that `rng` draws next from a grid of `max_x` columns and
    /// `max_y` rows: one draw below `max_x` for the column, then one below
    /// `max_y` for the row.
    pub open spec fn drawn_by(rng: Rng, max_x: i16, max_y: i16) -> GridPosition {
        GridPosition {
            x: rng.drawn(0, max_x as u32) as i16,
            y: rng.after_draw(0, max_x as u32).drawn(0, max_y as u32) as i16,
        }
    }

    /// The generator after it has drawn a cell from such a grid.
    pub open spec fn rng_after(rng: Rng, max_x: i16, max_y: i16) -> Rng {
        rng.after_draw(0, max_x as u32).after_draw(0, max_y as u32)
    }

    /// Draws a cell of a grid of `max_x` columns and `max_y` rows, the column
    /// first and the row second. The cell always lies on the grid.
    pub fn random(rng: &mut Rng, max_x: i16, max_y: i16) -> (p: GridPosition)
        requires
            old(rng).valid(),
            max_x > 0,
            max_y > 0,
        ensures
            p == GridPosition::drawn_by(*old(rng), max_x, max_y),
            *final(rng) == GridPosition::rng_after(*old(rng), max_x, max_y),
            final(rng).valid(),
            p.in_grid(max_x as int, max_y as int),
    {
        let x: u32 = rng.rand_range(0, max_x as u32);
        let y: u32 = rng.rand_range(0, max_y as u32);
        GridPosition::new(x as i16, y as i16)
    }

    /// Returns the cell one step from `pos` in `dir`, wrapping at the edges
    /// of a grid of `grid_width` columns and `grid_height` rows.
    pub fn new_from_move(pos: GridPosition, dir: Direction, grid_width: i16, grid_height: i16) -> (p:
        GridPosition)
        requires
            grid_width > 0,
            grid_height > 0,
            pos.can_step(dir),
        ensures
            p == pos.moved(dir, grid_width, grid_height),
            dir == Direction::Up || dir == Direction::Down ==> 0 <= p.y < grid_height,
            dir == Direction::Left || dir == Direction::Right ==> 0 <= p.x < grid_width,
            pos.in_grid(grid_width as int, grid_height as int) ==> p.in_grid(
                grid_width as int,
                grid_height as int,
            ),
    {
        match dir {
            Direction::Up => GridPosition::new(pos.x, rem_euclid(pos.y - 1, grid_height)),
            Direction::Down => GridPosition::new(pos.x, rem_euclid(pos.y + 1, grid_height)),
            Direction::Left => GridPosition::new(rem_euclid(pos.x - 1, grid_width), pos.y),
            Direction::Right => GridPosition::new(rem_euclid(pos.x + 1, grid_width), pos.y),
        }
    }
}

impl From<(i16, i16)> for GridPosition {
    /// The cell whose column is the first number and whose row is the second.
    fn from(pos: (i16, i16)) -> (p: GridPosition) {
        GridPosition { x: pos.0, y: pos.1 }
    }
}

impl vstd::std_specs::convert::FromSpecImpl<(i16, i16)> for GridPosition {
    open spec fn obeys_from_spec() -> bool {
        true
    }

    open spec fn from_spec(pos: (i16, i16)) -> GridPosition {
        GridPosition { x: pos.0, y: pos.1 }
    }
}

/// A step changes one coordinate only, and that coordinate lands inside its
/// dimension wherever the step began. So a cell of the grid is taken to a cell
/// of the grid.
pub proof fn lemma_move_stays_in_grid(p: GridPosition, d: Direction, width: i16, height: i16)
    requires
        width > 0,
        height > 0,
    ensures
        d == Direction::Up || d == Direction::Down ==> 0 <= p.moved(d, width, height).y < height
            && p.moved(d, width, height).x == p.x,
        d == Direction::Left || d == Direction::Right ==> 0 <= p.moved(d, width, height).x < width
            && p.moved(d, width, height).y == p.y,
        p.in_grid(width as int, height as int) ==> p.moved(d, width, height).in_grid(
            width as int,
            height as int,
        ),
{
}

/// A step followed by a step in the opposite direction leads back to the
/// cell it started from.
pub proof fn lemma_move_invertible(p: GridPosition, d: Direction, width: i16, height: i16)
    requires
        width > 0,
        height > 0,
        p.in_grid(width as int, height as int),
    ensures
        p.moved(d, width, height).moved(d.opposite(), width, height) == p,
{
    let w = width as int;
    let h = height as int;
    match d {
        Direction::Up => {
            lemma_step_back(p.y as int, h);
        },
        Direction::Down => {
            lemma_step_back(p.y as int, h);
        },
        Direction::Left => {
            lemma_step_back(p.x as int, w);
        },
        Direction::Right => {
            lemma_step_back(p.x as int, w);
        },
    }
}

/// On a ring of `n` places, one place forward and one back, in either order,
/// is no move at all.
proof fn lemma_step_back(a: int, n: int)
    requires
        n > 0,
        0 <= a < n,
    ensures
        0 <= (a + 1) % n < n,
        0 <= (a - 1) % n < n,
        ((a + 1) % n - 1) % n == a,
        ((a - 1) % n + 1) % n == a,
{
    if a + 1 == n {
        assert((a + 1) % n == 0) by (nonlinear_arith)
            requires
                a + 1 == n,
                n > 0,
        ;
        assert((0 - 1) % n == n - 1) by (nonlinear_arith)
            requires
                n > 0,
        ;
    } else {
        assert((a + 1) % n == a + 1) by (nonlinear_arith)
            requires
                0 <= a + 1 < n,
        ;
        assert(a % n == a) by (nonlinear_arith)
            requires
                0 <= a < n,
        ;
    }
    if a == 0 {
        assert((a - 1) % n == n - 1) by (nonlinear_arith)
            requires
                a == 0,
                n > 0,
        ;
        assert((n - 1 + 1) % n == 0) by (nonlinear_arith)
            requires
                n > 0,
        ;
    } else {
        assert((a - 1) % n == a - 1) by (nonlinear_arith)
            requires
                0 <= a - 1 < n,
        ;
        assert(a % n == a) by (nonlinear_arith)
            requires
                0 <= a < n,
        ;
    }
}

} // verus!
