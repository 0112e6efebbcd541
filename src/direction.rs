use vstd::prelude::*;

use crate::genes::{Coords, Gene};

verus! {

/// The eight compass directions, in clockwise order starting at north.
///
/// The y axis points down: north is `(0, -1)`.
#[derive(Clone, Copy, Debug, PartialEq, Eq, Structural)]
pub enum Direction {
    North,
    NorthEast,
    East,
    SouthEast,
    South,
    SouthWest,
    West,
    NorthWest,
}

/// Position of a direction in clockwise order from north.
pub open spec fn dir_index(d: Direction) -> nat {
    match d {
        Direction::North => 0,
        Direction::NorthEast => 1,
        Direction::East => 2,
        Direction::SouthEast => 3,
        Direction::South => 4,
        Direction::SouthWest => 5,
        Direction::West => 6,
        Direction::NorthWest => 7,
    }
}

/// The direction at clockwise position `i mod 8`.
pub open spec fn dir_at(i: int) -> Direction {
    let k = i % 8;
    if k == 0 {
        Direction::North
    } else if k == 1 {
        Direction::NorthEast
    } else if k == 2 {
        Direction::East
    } else if k == 3 {
        Direction::SouthEast
    } else if k == 4 {
        Direction::South
    } else if k == 5 {
        Direction::SouthWest
    } else if k == 6 {
        Direction::West
    } else {
        Direction::NorthWest
    }
}

/// `d` turned clockwise by `steps` eighths of a circle.
pub open spec fn rotated(d: Direction, steps: int) -> Direction {
    dir_at(dir_index(d) + steps)
}

/// The unit step taken when moving in direction `d`.
pub open spec fn shift_of(d: Direction) -> (int, int) {
    match d {
        Direction::North => (0, -1),
        Direction::NorthEast => (1, -1),
        Direction::East => (1, 0),
        Direction::SouthEast => (1, 1),
        Direction::South => (0, 1),
        Direction::SouthWest => (-1, 1),
        Direction::West => (-1, 0),
        Direction::NorthWest => (-1, -1),
    }
}

impl Direction {
    /// Number of directions.
    pub const SIZE: usize = 8;

    /// The unit step `(dx, dy)` of this direction.
    pub fn shift(&self) -> (r: (Coords, Coords))
        ensures
            (r.0 as int, r.1 as int) == shift_of(*self),
    {
        match *self {
            Direction::North => (0, -1),
            Direction::NorthEast => (1, -1),
            Direction::East => (1, 0),
            Direction::SouthEast => (1, 1),
            Direction::South => (0, 1),
            Direction::SouthWest => (-1, 1),
            Direction::West => (-1, 0),
            Direction::NorthWest => (-1, -1),
        }
    }

    /// Clockwise position of this direction, north being 0.
    pub fn index(&self) -> (r: usize)
        ensures
            r == dir_index(*self),
    {
        match *self {
            Direction::North => 0,
            Direction::NorthEast => 1,
            Direction::East => 2,
            Direction::SouthEast => 3,
            Direction::South => 4,
            Direction::SouthWest => 5,
            Direction::West => 6,
            Direction::NorthWest => 7,
        }
    }

    /// The direction at clockwise position `value mod 8`.
    pub fn by_value(value: usize) -> (r: Direction)
        ensures
            r == dir_at(value as int),
    {
        let k = value % 8;
        if k == 0 {
            Direction::North
        } else if k == 1 {
            Direction::NorthEast
        } else if k == 2 {
            Direction::East
        } else if k == 3 {
            Direction::SouthEast
        } else if k == 4 {
            Direction::South
        } else if k == 5 {
            Direction::SouthWest
        } else if k == 6 {
            Direction::West
        } else {
            Direction::NorthWest
        }
    }

    /// This direction turned clockwise by `value` steps; any value is
    /// accepted and taken modulo 8.
    pub fn rotate(&self, value: Gene) -> (r: Direction)
        ensures
            r == rotated(*self, value as int),
    {
        let r = Direction::by_value(self.index() + value % 8);
        proof {
            lemma_dir_at_mod(dir_index(*self) + value as int, dir_index(*self) + (value % 8) as int);
        }
        r
    }
}

/// Positions that agree modulo 8 name the same direction.
pub proof fn lemma_dir_at_mod(a: int, b: int)
    requires
        a % 8 == b % 8,
    ensures
        dir_at(a) == dir_at(b),
{
}

/// Turning is a cyclic group of order 8: eight steps give the same direction
/// back, and turning by `a` and then by `b` equals turning by `a + b`.
pub proof fn lemma_rotation_cyclic(d: Direction, a: int, b: int)
    ensures
        rotated(d, 8) == d,
        rotated(rotated(d, a), b) == rotated(d, a + b),
{
    let t = rotated(d, a);
    assert(dir_index(t) as int == (dir_index(d) + a) % 8);
    assert((dir_index(t) + b) % 8 == (dir_index(d) + a + b) % 8) by (nonlinear_arith)
        requires
            dir_index(t) as int == (dir_index(d) + a) % 8,
    ;
}

} // verus!
