use vstd::prelude::*;

verus! {

/// A facing / movement direction on the overworld grid.
#[derive(Debug, Clone, Copy, PartialEq, Eq, Structural)]
pub enum Direction {
    Down,
    Up,
    Left,
    Right,
}

/// Unit tile delta of a direction, as a mathematical pair.
pub open spec fn spec_delta(d: Direction) -> (int, int) {
    match d {
        Direction::Up => (0, -1),
        Direction::Down => (0, 1),
        Direction::Left => (-1, 0),
        Direction::Right => (1, 0),
    }
}

/// Tile delta of one step in `d` (y grows downwards).
pub fn direction_delta(d: Direction) -> (r: (i8, i8))
    ensures
        r.0 as int == spec_delta(d).0,
        r.1 as int == spec_delta(d).1,
{
    match d {
        Direction::Up => (0, -1),
        Direction::Down => (0, 1),
        Direction::Left => (-1, 0),
        Direction::Right => (1, 0),
    }
}

} // verus!
