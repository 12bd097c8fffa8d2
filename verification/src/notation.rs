//! The human coordinate notation of the text client: letter-digit cell
//! names, and the direction a one-step relocation must take.

use vstd::prelude::*;

use crate::geometry::{step_octant, Coord, Octant};

verus! {

/// The column a letter names: `A`/`a` is column 0 through `H`/`h`,
/// column 7.
pub open spec fn col_of_char(c: char) -> Option<int> {
    if c == 'A' || c == 'a' {
        Some(0int)
    } else if c == 'B' || c == 'b' {
        Some(1int)
    } else if c == 'C' || c == 'c' {
        Some(2int)
    } else if c == 'D' || c == 'd' {
        Some(3int)
    } else if c == 'E' || c == 'e' {
        Some(4int)
    } else if c == 'F' || c == 'f' {
        Some(5int)
    } else if c == 'G' || c == 'g' {
        Some(6int)
    } else if c == 'H' || c == 'h' {
        Some(7int)
    } else {
        None
    }
}

/// The row a digit names: `1` is row 0 through `8`, row 7.
pub open spec fn row_of_char(c: char) -> Option<int> {
    if c == '1' {
        Some(0int)
    } else if c == '2' {
        Some(1int)
    } else if c == '3' {
        Some(2int)
    } else if c == '4' {
        Some(3int)
    } else if c == '5' {
        Some(4int)
    } else if c == '6' {
        Some(5int)
    } else if c == '7' {
        Some(6int)
    } else if c == '8' {
        Some(7int)
    } else {
        None
    }
}

/// `parse_coordinate` over character sequences: exactly one column letter
/// followed by one row digit.
pub open spec fn parse_coordinate_spec(s: Seq<char>) -> Option<Coord> {
    if s.len() != 2 {
        None
    } else if col_of_char(s[0]) is Some && row_of_char(s[1]) is Some {
        Some(
            Coord {
                x: col_of_char(s[0]).unwrap() as usize,
                y: row_of_char(s[1]).unwrap() as usize,
            },
        )
    } else {
        None
    }
}

/// Read a cell name such as `E1` into a position; the column letter may be
/// written in either case.
pub fn parse_coordinate(coord: &str) -> (r: Option<Coord>)
    ensures
        r == parse_coordinate_spec(coord@),
        (r matches Some(c) ==> c.in_bounds()),
{
    if coord.unicode_len() != 2 {
        return None;
    }
    let col_char = coord.get_char(0);
    let row_char = coord.get_char(1);
    let col: usize = match col_char {
        'A' | 'a' => 0,
        'B' | 'b' => 1,
        'C' | 'c' => 2,
        'D' | 'd' => 3,
        'E' | 'e' => 4,
        'F' | 'f' => 5,
        'G' | 'g' => 6,
        'H' | 'h' => 7,
        _ => {
            return None;
        },
    };
    let row: usize = match row_char {
        '1' => 0,
        '2' => 1,
        '3' => 2,
        '4' => 3,
        '5' => 4,
        '6' => 5,
        '7' => 6,
        '8' => 7,
        _ => {
            return None;
        },
    };
    Some(Coord { x: col, y: row })
}

/// The letter that names column `x`.
pub open spec fn col_letter(x: int) -> char {
    if x == 0 {
        'A'
    } else if x == 1 {
        'B'
    } else if x == 2 {
        'C'
    } else if x == 3 {
        'D'
    } else if x == 4 {
        'E'
    } else if x == 5 {
        'F'
    } else if x == 6 {
        'G'
    } else {
        'H'
    }
}

/// The digit shown for row `y`, counting down from `8` at row 0.
pub open spec fn row_digit(y: int) -> char {
    if y == 0 {
        '8'
    } else if y == 1 {
        '7'
    } else if y == 2 {
        '6'
    } else if y == 3 {
        '5'
    } else if y == 4 {
        '4'
    } else if y == 5 {
        '3'
    } else if y == 6 {
        '2'
    } else {
        '1'
    }
}

/// `format_coord` over values: the column letter followed by the row
/// digit.
pub open spec fn format_coord_spec(c: Coord) -> Seq<char> {
    seq![col_letter(c.x as int), row_digit(c.y as int)]
}

/// Print a position as a cell name such as `E1`.
pub fn format_coord(coord: Coord) -> (r: String)
    requires
        coord.in_bounds(),
    ensures
        r@ == format_coord_spec(coord),
{
    let cols = "ABCDEFGH";
    let rows = "87654321";
    proof {
        reveal_strlit("ABCDEFGH");
        reveal_strlit("87654321");
    }
    let col_s = cols.substring_char(coord.x, coord.x + 1);
    let row_s = rows.substring_char(coord.y, coord.y + 1);
    let mut out = String::from_str(col_s);
    out.append(row_s);
    proof {
        assert(out@ =~= format_coord_spec(coord));
    }
    out
}

/// How far apart two cells are when a step may be diagonal: the larger of
/// the column and row distances.
pub open spec fn chebyshev_distance(a: Coord, b: Coord) -> int {
    let dx = if a.x >= b.x {
        a.x - b.x
    } else {
        b.x - a.x
    };
    let dy = if a.y >= b.y {
        a.y - b.y
    } else {
        b.y - a.y
    };
    if dx >= dy {
        dx
    } else {
        dy
    }
}

/// The direction of the single step that takes `from` to `to`: defined
/// exactly when the two cells are adjacent, and then the returned octant
/// steps `from` onto `to`.
pub fn octant_between(from: Coord, to: Coord) -> (r: Option<Octant>)
    requires
        from.in_bounds(),
        to.in_bounds(),
    ensures
        (r is Some <==> chebyshev_distance(from, to) == 1),
        (r matches Some(o) ==> step_octant(from, o) == Some(to)),
{
    if to.x == from.x {
        if to.y == from.y + 1 {
            Some(Octant::North)
        } else if from.y >= 1 && to.y == from.y - 1 {
            Some(Octant::South)
        } else {
            None
        }
    } else if to.x == from.x + 1 {
        if to.y == from.y {
            Some(Octant::East)
        } else if to.y == from.y + 1 {
            Some(Octant::NorthEast)
        } else if from.y >= 1 && to.y == from.y - 1 {
            Some(Octant::SouthEast)
        } else {
            None
        }
    } else if from.x >= 1 && to.x == from.x - 1 {
        if to.y == from.y {
            Some(Octant::West)
        } else if to.y == from.y + 1 {
            Some(Octant::NorthWest)
        } else if from.y >= 1 && to.y == from.y - 1 {
            Some(Octant::SouthWest)
        } else {
            None
        }
    } else {
        None
    }
}

} // verus!
