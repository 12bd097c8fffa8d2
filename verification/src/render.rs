//! The laser-path overlay the text client draws: which cells the mover's
//! laser crosses, and where it lands.

use vstd::prelude::*;

use crate::board::{cell_idx, laser_origin, Board, Laser};
use crate::geometry::{step_heading, Coord, Heading};
use crate::piece::{spec_reflect, Piece, Player};

verus! {

/// A grid with no laser marks on it.
pub open spec fn no_marks() -> Seq<Option<char>> {
    Seq::new(64, |i: int| None)
}

/// The mark a traversed empty cell takes: a bar along the direction of
/// travel, or a crossing where the cell was already marked.
pub open spec fn mark_char(existing: Option<char>, dir: Heading) -> char {
    if existing is Some {
        '+'
    } else if dir is North || dir is South {
        '|'
    } else {
        '-'
    }
}

/// `compute_lasers` over views: walk the laser as `bounce_spec` does,
/// marking each empty cell it leaves and the cell of a terminal hit.
/// Cells the laser reflects on, and the cell it exits the grid from, stay
/// unmarked. `fuel` bounds the walk as in `bounce_spec`.
pub open spec fn trace_spec(
    b: Seq<Option<Piece>>,
    laser: Laser,
    marks: Seq<Option<char>>,
    fuel: nat,
) -> Seq<Option<char>>
    decreases fuel,
{
    if fuel == 0 || !laser.position.in_bounds() {
        marks
    } else {
        let i = cell_idx(laser.position);
        match b[i] {
            Some(piece) => match spec_reflect(piece, laser.direction) {
                Err(_) => marks.update(i, Some('\u{1f4a5}')),
                Ok(new_direction) => match step_heading(laser.position, new_direction) {
                    None => marks,
                    Some(next) => trace_spec(
                        b,
                        Laser { position: next, direction: new_direction },
                        marks,
                        (fuel - 1) as nat,
                    ),
                },
            },
            None => match step_heading(laser.position, laser.direction) {
                None => marks,
                Some(next) => trace_spec(
                    b,
                    Laser { position: next, direction: laser.direction },
                    marks.update(i, Some(mark_char(marks[i], laser.direction))),
                    (fuel - 1) as nat,
                ),
            },
        }
    }
}

/// Trace `player`'s laser across `board` and return the row-major grid of
/// overlay marks: a bar on each empty cell the laser leaves, a burst on
/// the cell of a terminal hit, nothing on mirror cells it reflects on.
pub fn compute_lasers(board: &Board, player: Player) -> (r: Vec<Option<char>>)
    requires
        board.wf(),
    ensures
        r@.len() == 64,
        r@ == trace_spec(board@, laser_origin(player), no_marks(), 256),
{
    let mut result: Vec<Option<char>> = vec![None; 64];
    proof {
        assert(result@ =~= no_marks());
    }
    let mut laser = match player {
        Player::Player1 => Laser {
            position: Coord { x: 7, y: 0 },
            direction: Heading::North,
        },
        Player::Player2 => Laser {
            position: Coord { x: 0, y: 7 },
            direction: Heading::South,
        },
    };
    let mut fuel: u16 = 256;
    loop
        invariant
            board.wf(),
            laser.position.in_bounds(),
            fuel <= 256,
            result@.len() == 64,
            trace_spec(board@, laser_origin(player), no_marks(), 256) == trace_spec(
                board@,
                laser,
                result@,
                fuel as nat,
            ),
        decreases fuel,
    {
        if fuel == 0 {
            return result;
        }
        let i = laser.position.y * 8 + laser.position.x;
        match board.get(laser.position) {
            Some(piece) => {
                match piece.reflect(laser.direction) {
                    Err(_) => {
                        result[i] = Some('\u{1f4a5}');
                        return result;
                    },
                    Ok(new_direction) => {
                        let turned = Laser { position: laser.position, direction: new_direction };
                        match turned.advance() {
                            None => {
                                return result;
                            },
                            Some(next) => {
                                laser = next;
                                fuel = fuel - 1;
                            },
                        }
                    },
                }
            },
            None => {
                match laser.advance() {
                    None => {
                        return result;
                    },
                    Some(next) => {
                        let mark = if result[i].is_some() {
                            '+'
                        } else {
                            match laser.direction {
                                Heading::North | Heading::South => '|',
                                Heading::East | Heading::West => '-',
                            }
                        };
                        result[i] = Some(mark);
                        laser = next;
                        fuel = fuel - 1;
                    },
                }
            },
        }
    }
}

} // verus!
