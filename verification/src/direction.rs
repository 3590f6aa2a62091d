//! The four movement directions and the decoding of direction keys.

use vstd::prelude::*;

verus! {

/// A direction in which the snake can move.
#[derive(Clone, Copy, Debug, PartialEq, Eq, Structural)]
pub enum Direction {
    Up,
    Down,
    Left,
    Right,
}

/// A key press as the host reports it: one of the four arrow keys, or any
/// other key.
#[derive(Clone, Copy, Debug, PartialEq, Eq, Structural)]
pub enum InputKey {
    Up,
    Down,
    Left,
    Right,
    Other,
}

impl Direction {
    /// The opposite direction: `Up` and `Down` swap, `Left` and `Right` swap.
    pub open spec fn opposite(self) -> Direction {
        match self {
            Direction::Up => Direction::Down,
            Direction::Down => Direction::Up,
            Direction::Left => Direction::Right,
            Direction::Right => Direction::Left,
        }
    }

    /// The direction that a key stands for, if it stands for one.
    pub open spec fn of_key(key: InputKey) -> Option<Direction> {
        match key {
            InputKey::Up => Some(Direction::Up),
            InputKey::Down => Some(Direction::Down),
            InputKey::Left => Some(Direction::Left),
            InputKey::Right => Some(Direction::Right),
            InputKey::Other => None,
        }
    }

    /// Returns the opposite direction.
    #[verifier::when_used_as_spec(opposite)]
    pub fn inverse(self) -> (r: Direction)
        ensures
            r == self.opposite(),
    {
        match self {
            Direction::Up => Direction::Down,
            Direction::Down => Direction::Up,
            Direction::Left => Direction::Right,
            Direction::Right => Direction::Left,
        }
    }

    /// Decodes a key press. The four arrow keys give their direction; every
    /// other key gives `None`, which callers ignore.
    pub fn from_keycode(key: InputKey) -> (r: Option<Direction>)
        ensures
            r == Direction::of_key(key),
    {
        match key {
            InputKey::Up => Some(Direction::Up),
            InputKey::Down => Some(Direction::Down),
            InputKey::Left => Some(Direction::Left),
            InputKey::Right => Some(Direction::Right),
            InputKey::Other => None,
        }
    }
}

/// Taking the opposite twice gives the direction back, and no direction is
/// its own opposite.
pub proof fn lemma_inverse_involution(d: Direction)
    ensures
        d.opposite().opposite() == d,
        d.opposite() != d,
{
}

/// Each of the four directions is decoded from exactly one key.
pub proof fn lemma_every_direction_has_a_key(d: Direction)
    ensures
        exists|k: InputKey| Direction::of_key(k) == Some(d),
        forall|j: InputKey, k: InputKey|
            Direction::of_key(j) == Some(d) && Direction::of_key(k) == Some(d) ==> j == k,
{
    let k = match d {
        Direction::Up => InputKey::Up,
        Direction::Down => InputKey::Down,
        Direction::Left => InputKey::Left,
        Direction::Right => InputKey::Right,
    };
    assert(Direction::of_key(k) == Some(d));
}

} // verus!
