//! Grid coordinates, compass directions and mirror orientations.
//!
//! The board is an 8x8 grid addressed by `(x, y)` pairs in `[0, 8) x [0, 8)`.
//! Lasers travel along the four orthogonal `Heading`s; pieces relocate one
//! step along one of the eight `Octant`s; mirror faces point along one of the
//! four diagonal `Orientation`s.

use vstd::prelude::*;

verus! {

/// A cell position: column `x`, row `y`.
#[derive(Clone, Copy, Debug, PartialEq, Eq, Structural)]
pub struct Coord {
    pub x: usize,
    pub y: usize,
}

impl Coord {
    /// Whether the position lies on the board.
    pub open spec fn in_bounds(self) -> bool {
        self.x < 8 && self.y < 8
    }

    pub fn new(x: usize, y: usize) -> (c: Coord)
        ensures
            c.x == x,
            c.y == y,
    {
        Coord { x, y }
    }
}

/// One of the four orthogonal directions a laser travels in.
#[derive(Clone, Copy, Debug, PartialEq, Eq, Structural)]
pub enum Heading {
    North,
    East,
    South,
    West,
}

/// One of the eight directions a piece may step in.
#[derive(Clone, Copy, Debug, PartialEq, Eq, Structural)]
pub enum Octant {
    North,
    NorthEast,
    East,
    SouthEast,
    South,
    SouthWest,
    West,
    NorthWest,
}

/// The sense of a quarter turn.
#[derive(Clone, Copy, Debug, PartialEq, Eq, Structural)]
pub enum Chirality {
    Clockwise,
    CounterClockwise,
}

/// One of the four diagonal facings of a mirror face.
#[derive(Clone, Copy, Debug, PartialEq, Eq, Structural)]
pub enum Orientation {
    NE,
    NW,
    SE,
    SW,
}

/// Column displacement of one step along `dir`.
pub open spec fn heading_dx(dir: Heading) -> int {
    match dir {
        Heading::North => 0,
        Heading::East => 1,
        Heading::South => 0,
        Heading::West => -1,
    }
}

/// Row displacement of one step along `dir`. North is the direction of
/// increasing row numbers.
pub open spec fn heading_dy(dir: Heading) -> int {
    match dir {
        Heading::North => 1,
        Heading::East => 0,
        Heading::South => -1,
        Heading::West => 0,
    }
}

/// Column displacement of one step along `dir`.
pub open spec fn octant_dx(dir: Octant) -> int {
    match dir {
        Octant::North => 0,
        Octant::NorthEast => 1,
        Octant::East => 1,
        Octant::SouthEast => 1,
        Octant::South => 0,
        Octant::SouthWest => -1,
        Octant::West => -1,
        Octant::NorthWest => -1,
    }
}

/// Row displacement of one step along `dir`.
pub open spec fn octant_dy(dir: Octant) -> int {
    match dir {
        Octant::North => 1,
        Octant::NorthEast => 1,
        Octant::East => 0,
        Octant::SouthEast => -1,
        Octant::South => -1,
        Octant::SouthWest => -1,
        Octant::West => 0,
        Octant::NorthWest => 1,
    }
}

/// The cell one step along `dir` from `pos`, or `None` where that step
/// leaves the board.
pub open spec fn step_heading(pos: Coord, dir: Heading) -> Option<Coord> {
    if 0 <= pos.x + heading_dx(dir) < 8 && 0 <= pos.y + heading_dy(dir) < 8 {
        Some(
            Coord {
                x: (pos.x + heading_dx(dir)) as usize,
                y: (pos.y + heading_dy(dir)) as usize,
            },
        )
    } else {
        None
    }
}

/// The cell one step along `dir` from `pos`, or `None` where that step
/// leaves the board.
pub open spec fn step_octant(pos: Coord, dir: Octant) -> Option<Coord> {
    if 0 <= pos.x + octant_dx(dir) < 8 && 0 <= pos.y + octant_dy(dir) < 8 {
        Some(
            Coord {
                x: (pos.x + octant_dx(dir)) as usize,
                y: (pos.y + octant_dy(dir)) as usize,
            },
        )
    } else {
        None
    }
}

/// Step one cell along an orthogonal direction, clamped to the board.
pub fn add_compass_quadrant(pos: Coord, dir: Heading) -> (r: Option<Coord>)
    requires
        pos.in_bounds(),
    ensures
        r == step_heading(pos, dir),
        (r matches Some(c) ==> c.in_bounds()),
{
    match dir {
        Heading::North => {
            if pos.y + 1 < 8 {
                Some(Coord { x: pos.x, y: pos.y + 1 })
            } else {
                None
            }
        },
        Heading::East => {
            if pos.x + 1 < 8 {
                Some(Coord { x: pos.x + 1, y: pos.y })
            } else {
                None
            }
        },
        Heading::South => {
            if pos.y >= 1 {
                Some(Coord { x: pos.x, y: pos.y - 1 })
            } else {
                None
            }
        },
        Heading::West => {
            if pos.x >= 1 {
                Some(Coord { x: pos.x - 1, y: pos.y })
            } else {
                None
            }
        },
    }
}

/// Step one cell along an orthogonal or diagonal direction, clamped to the
/// board.
pub fn add_compass_octant(pos: Coord, dir: Octant) -> (r: Option<Coord>)
    requires
        pos.in_bounds(),
    ensures
        r == step_octant(pos, dir),
        (r matches Some(c) ==> c.in_bounds()),
{
    match dir {
        Octant::North => {
            if pos.y + 1 < 8 {
                Some(Coord { x: pos.x, y: pos.y + 1 })
            } else {
                None
            }
        },
        Octant::NorthEast => {
            if pos.x + 1 < 8 && pos.y + 1 < 8 {
                Some(Coord { x: pos.x + 1, y: pos.y + 1 })
            } else {
                None
            }
        },
        Octant::East => {
            if pos.x + 1 < 8 {
                Some(Coord { x: pos.x + 1, y: pos.y })
            } else {
                None
            }
        },
        Octant::SouthEast => {
            if pos.x + 1 < 8 && pos.y >= 1 {
                Some(Coord { x: pos.x + 1, y: pos.y - 1 })
            } else {
                None
            }
        },
        Octant::South => {
            if pos.y >= 1 {
                Some(Coord { x: pos.x, y: pos.y - 1 })
            } else {
                None
            }
        },
        Octant::SouthWest => {
            if pos.x >= 1 && pos.y >= 1 {
                Some(Coord { x: pos.x - 1, y: pos.y - 1 })
            } else {
                None
            }
        },
        Octant::West => {
            if pos.x >= 1 {
                Some(Coord { x: pos.x - 1, y: pos.y })
            } else {
                None
            }
        },
        Octant::NorthWest => {
            if pos.x >= 1 && pos.y + 1 < 8 {
                Some(Coord { x: pos.x - 1, y: pos.y + 1 })
            } else {
                None
            }
        },
    }
}

/// `rotate` as a table over orientations.
pub open spec fn spec_rotate(o: Orientation, chirality: Chirality) -> Orientation {
    match (o, chirality) {
        (Orientation::NE, Chirality::Clockwise) => Orientation::SE,
        (Orientation::NE, Chirality::CounterClockwise) => Orientation::NW,
        (Orientation::NW, Chirality::Clockwise) => Orientation::NE,
        (Orientation::NW, Chirality::CounterClockwise) => Orientation::SW,
        (Orientation::SE, Chirality::Clockwise) => Orientation::SW,
        (Orientation::SE, Chirality::CounterClockwise) => Orientation::NE,
        (Orientation::SW, Chirality::Clockwise) => Orientation::NW,
        (Orientation::SW, Chirality::CounterClockwise) => Orientation::SE,
    }
}

/// `mirrored` as a table over orientations: a point reflection.
pub open spec fn spec_mirrored(o: Orientation) -> Orientation {
    match o {
        Orientation::NE => Orientation::SW,
        Orientation::NW => Orientation::SE,
        Orientation::SE => Orientation::NW,
        Orientation::SW => Orientation::NE,
    }
}

impl Orientation {
    /// Turn the facing a quarter turn in the given sense.
    pub fn rotate(self, chirality: Chirality) -> (r: Orientation)
        ensures
            r == spec_rotate(self, chirality),
    {
        match (self, chirality) {
            (Orientation::NE, Chirality::Clockwise) => Orientation::SE,
            (Orientation::NE, Chirality::CounterClockwise) => Orientation::NW,
            (Orientation::NW, Chirality::Clockwise) => Orientation::NE,
            (Orientation::NW, Chirality::CounterClockwise) => Orientation::SW,
            (Orientation::SE, Chirality::Clockwise) => Orientation::SW,
            (Orientation::SE, Chirality::CounterClockwise) => Orientation::NE,
            (Orientation::SW, Chirality::Clockwise) => Orientation::NW,
            (Orientation::SW, Chirality::CounterClockwise) => Orientation::SE,
        }
    }

    /// Reflect the facing through the cell's centre.
    pub fn mirrored(self) -> (r: Orientation)
        ensures
            r == spec_mirrored(self),
    {
        match self {
            Orientation::NE => Orientation::SW,
            Orientation::NW => Orientation::SE,
            Orientation::SE => Orientation::NW,
            Orientation::SW => Orientation::NE,
        }
    }
}

} // verus!
