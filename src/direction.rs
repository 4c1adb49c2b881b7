use vstd::prelude::*;

verus! {

/// One of the four facings of the snake's head.
#[derive(Clone, Copy, Debug, PartialEq, Eq, Structural)]
pub enum Direction {
    Up,
    Right,
    Down,
    Left,
}

/// The facing that points the other way.
pub open spec fn opposite_of(d: Direction) -> Direction {
    match d {
        Direction::Up => Direction::Down,
        Direction::Right => Direction::Left,
        Direction::Down => Direction::Up,
        Direction::Left => Direction::Right,
    }
}

/// Unit step of a facing, in cells: Up is +y, Right is +x.
pub open spec fn unit_offset(d: Direction) -> (int, int) {
    match d {
        Direction::Up => (0, 1),
        Direction::Right => (1, 0),
        Direction::Down => (0, -1),
        Direction::Left => (-1, 0),
    }
}

impl Direction {
    pub fn opposite(self) -> (r: Direction)
        ensures
            r == opposite_of(self),
    {
        match self {
            Direction::Up => Direction::Down,
            Direction::Right => Direction::Left,
            Direction::Down => Direction::Up,
            Direction::Left => Direction::Right,
        }
    }
}

/// Taking the opposite twice gives the facing back, and no facing is its own
/// opposite.
pub proof fn lemma_opposite_involution(d: Direction)
    ensures
        opposite_of(opposite_of(d)) == d,
        d != opposite_of(d),
{
}

} // verus!
