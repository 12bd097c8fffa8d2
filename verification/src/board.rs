//! The board, move validation and application, and laser resolution.

use vstd::prelude::*;

use crate::geometry::{
    step_heading, step_octant, Chirality, Coord, Heading, Octant,
};
use crate::piece::{spec_reflect, spec_rotate_kind, Piece, PieceKind, Player};

verus! {

/// A move submission: the cell the chosen piece stands on, plus what to do
/// with it.
#[derive(Clone, Copy, Debug, PartialEq, Eq, Structural)]
pub struct Move {
    pub from: Coord,
    pub kind: MoveKind,
}

/// Relocate one step in a direction, or rotate in place.
#[derive(Clone, Copy, Debug, PartialEq, Eq, Structural)]
pub enum MoveKind {
    Move(Octant),
    Rotate(Chirality),
}

/// Why a move submission was rejected. The conditions are checked in the
/// order the variants are listed in, and the first violation wins.
#[derive(Clone, Copy, Debug, PartialEq, Eq, Structural)]
pub enum InvalidMove {
    NoPieceAtFrom,
    NotYourPiece,
    OutOfBounds,
    DestinationOccupied,
    CannotRotate,
}

impl InvalidMove {
    /// A short description of the rejection, for surfacing to the player.
    pub fn message(&self) -> (r: &'static str)
        ensures
            r@ == (match *self {
                InvalidMove::OutOfBounds => "Move goes out of bounds"@,
                InvalidMove::NoPieceAtFrom => "No piece at 'from' position"@,
                InvalidMove::NotYourPiece => "The piece at 'from' does not belong to you"@,
                InvalidMove::DestinationOccupied => "The destination cell is already occupied"@,
                InvalidMove::CannotRotate => "This piece cannot be rotated"@,
            }),
    {
        match self {
            InvalidMove::OutOfBounds => "Move goes out of bounds",
            InvalidMove::NoPieceAtFrom => "No piece at 'from' position",
            InvalidMove::NotYourPiece => "The piece at 'from' does not belong to you",
            InvalidMove::DestinationOccupied => "The destination cell is already occupied",
            InvalidMove::CannotRotate => "This piece cannot be rotated",
        }
    }
}

/// Where a transient laser is and which way it travels.
#[derive(Clone, Copy, Debug, PartialEq, Eq, Structural)]
pub struct Laser {
    pub position: Coord,
    pub direction: Heading,
}

/// `Laser::advance` over values: one step along the heading, or `None`
/// where that step leaves the board.
pub open spec fn spec_advance(laser: Laser) -> Option<Laser> {
    match step_heading(laser.position, laser.direction) {
        Some(p) => Some(Laser { position: p, direction: laser.direction }),
        None => None,
    }
}

impl Laser {
    /// Step the laser one cell forward along its heading.
    pub fn advance(self) -> (r: Option<Laser>)
        requires
            self.position.in_bounds(),
        ensures
            r == spec_advance(self),
            (r matches Some(l) ==> l.position.in_bounds() && l.direction == self.direction),
    {
        match crate::geometry::add_compass_quadrant(self.position, self.direction) {
            Some(position) => Some(Laser { position, direction: self.direction }),
            None => None,
        }
    }
}

/// The row-major index of a cell in the board's backing sequence.
pub open spec fn cell_idx(c: Coord) -> int {
    c.y * 8 + c.x
}

/// A cell's contents is a king.
pub open spec fn is_king_cell(c: Option<Piece>) -> bool {
    c matches Some(p) && p.kind is King
}

/// How many kings stand on the board.
pub open spec fn king_count(b: Seq<Option<Piece>>) -> int
    decreases b.len(),
{
    if b.len() == 0 {
        0
    } else {
        king_count(b.drop_last()) + if is_king_cell(b.last()) {
            1int
        } else {
            0int
        }
    }
}

/// The game is over once fewer than two kings remain.
pub open spec fn spec_game_over(b: Seq<Option<Piece>>) -> bool {
    king_count(b) < 2
}

/// An all-empty grid.
pub open spec fn empty_board() -> Seq<Option<Piece>> {
    Seq::new(64, |i: int| None)
}

/// The two fixed king placements the orchestrator deals out before play:
/// Player2's king at (4, 0), the row nearest Player2's laser origin, and
/// Player1's king at (3, 7).
pub open spec fn starting_board() -> Seq<Option<Piece>> {
    empty_board().update(
        cell_idx(Coord { x: 4, y: 0 }),
        Some(Piece { kind: PieceKind::King, allegiance: Player::Player2 }),
    ).update(
        cell_idx(Coord { x: 3, y: 7 }),
        Some(Piece { kind: PieceKind::King, allegiance: Player::Player1 }),
    )
}

/// `try_move_piece` over views: the validation chain with its
/// first-failure-wins order, and the whole-board effect of an accepted
/// move.
pub open spec fn apply_move_spec(
    b: Seq<Option<Piece>>,
    mv: Move,
    player: Player,
) -> Result<Seq<Option<Piece>>, InvalidMove> {
    match b[cell_idx(mv.from)] {
        None => Err(InvalidMove::NoPieceAtFrom),
        Some(piece) => if piece.allegiance != player {
            Err(InvalidMove::NotYourPiece)
        } else {
            match mv.kind {
                MoveKind::Move(direction) => match step_octant(mv.from, direction) {
                    None => Err(InvalidMove::OutOfBounds),
                    Some(to) => if b[cell_idx(to)] is Some {
                        Err(InvalidMove::DestinationOccupied)
                    } else {
                        Ok(b.update(cell_idx(to), Some(piece)).update(cell_idx(mv.from), None))
                    },
                },
                MoveKind::Rotate(chirality) => match spec_rotate_kind(piece.kind, chirality) {
                    None => Err(InvalidMove::CannotRotate),
                    Some(new_kind) => Ok(
                        b.update(
                            cell_idx(mv.from),
                            Some(Piece { kind: new_kind, allegiance: piece.allegiance }),
                        ),
                    ),
                },
            }
        },
    }
}

/// How many cells remain between the laser and the wall it travels
/// towards; the measure that shrinks with each straight-line step.
pub open spec fn ray_budget(laser: Laser) -> int {
    match laser.direction {
        Heading::North => 7 - laser.position.y,
        Heading::East => 7 - laser.position.x,
        Heading::South => laser.position.y as int,
        Heading::West => laser.position.x as int,
    }
}

/// `cast_laser` over views: walk the laser straight ahead until it exits
/// the grid (`None`) or enters an occupied cell.
pub open spec fn cast_spec(b: Seq<Option<Piece>>, laser: Laser) -> Option<(Coord, Piece)>
    decreases ray_budget(laser),
{
    if !laser.position.in_bounds() {
        None
    } else {
        match b[cell_idx(laser.position)] {
            Some(p) => Some((laser.position, p)),
            None => match step_heading(laser.position, laser.direction) {
                Some(next) => cast_spec(b, Laser { position: next, direction: laser.direction }),
                None => None,
            },
        }
    }
}

/// `bounce_laser` over views: repeat cast-then-reflect until the laser
/// exits (`None`) or strikes a piece that does not reflect; then the struck
/// cell and its new contents are returned. `fuel` bounds the number of
/// reflections. The grid has 256 distinct (position, heading) states, and a
/// walk that revisits one repeats forever, so with 256 units of fuel the
/// `fuel == 0` exit is reached only by walks that never terminate.
pub open spec fn bounce_spec(b: Seq<Option<Piece>>, laser: Laser, fuel: nat) -> Option<
    (Coord, Option<Piece>),
>
    decreases fuel,
{
    match cast_spec(b, laser) {
        None => None,
        Some((hit_coord, hit_piece)) => match spec_reflect(hit_piece, laser.direction) {
            Err(new_state) => Some((hit_coord, new_state)),
            Ok(new_direction) => if fuel == 0 {
                None
            } else {
                match step_heading(hit_coord, new_direction) {
                    None => None,
                    Some(next) => bounce_spec(
                        b,
                        Laser { position: next, direction: new_direction },
                        (fuel - 1) as nat,
                    ),
                }
            },
        },
    }
}

/// The fixed corner and inward heading each player's laser fires from.
pub open spec fn laser_origin(player: Player) -> Laser {
    match player {
        Player::Player1 => Laser {
            position: Coord { x: 7, y: 0 },
            direction: Heading::North,
        },
        Player::Player2 => Laser {
            position: Coord { x: 0, y: 7 },
            direction: Heading::South,
        },
    }
}

/// The board after the mover's laser has fired and resolved: at most the
/// single terminal cell changes.
pub open spec fn resolve_laser_spec(b: Seq<Option<Piece>>, player: Player) -> Seq<Option<Piece>> {
    match bounce_spec(b, laser_origin(player), 256) {
        Some((hit_coord, new_state)) => b.update(cell_idx(hit_coord), new_state),
        None => b,
    }
}

/// The 8x8 grid of optional pieces, stored row-major.
#[derive(Clone, Debug)]
pub struct Board {
    cells: Vec<Option<Piece>>,
}

impl View for Board {
    type V = Seq<Option<Piece>>;

    closed spec fn view(&self) -> Seq<Option<Piece>> {
        self.cells@
    }
}

impl Board {
    /// The backing sequence holds exactly one entry per grid cell.
    pub open spec fn wf(self) -> bool {
        self@.len() == 64
    }

    /// A board with no pieces on it.
    pub fn empty() -> (b: Board)
        ensures
            b.wf(),
            b@ == empty_board(),
    {
        let cells: Vec<Option<Piece>> = vec![None; 64];
        let b = Board { cells };
        proof {
            assert(b@ =~= empty_board());
        }
        b
    }

    /// The board dealt out at game start: the two kings on their fixed
    /// cells, every other cell empty.
    pub fn starting() -> (b: Board)
        ensures
            b.wf(),
            b@ == starting_board(),
    {
        let mut b = Board::empty();
        b.set(Coord { x: 4, y: 0 }, Some(Piece::king(Player::Player2)));
        b.set(Coord { x: 3, y: 7 }, Some(Piece::king(Player::Player1)));
        b
    }

    /// The contents of the cell at `c`.
    pub fn get(&self, c: Coord) -> (r: Option<Piece>)
        requires
            self.wf(),
            c.in_bounds(),
        ensures
            r == self@[cell_idx(c)],
    {
        self.cells[c.y * 8 + c.x]
    }

    /// Replace the contents of the cell at `c`.
    pub fn set(&mut self, c: Coord, contents: Option<Piece>)
        requires
            old(self).wf(),
            c.in_bounds(),
        ensures
            final(self).wf(),
            final(self)@ == old(self)@.update(cell_idx(c), contents),
    {
        self.cells[c.y * 8 + c.x] = contents;
    }

    /// Whether fewer than two kings remain on the board.
    pub fn game_over(&self) -> (r: bool)
        requires
            self.wf(),
        ensures
            r == spec_game_over(self@),
    {
        let mut count: usize = 0;
        let mut i: usize = 0;
        while i < 64
            invariant
                self.wf(),
                i <= 64,
                count <= i,
                count == king_count(self@.take(i as int)),
            decreases 64 - i,
        {
            proof {
                assert(self@.take(i + 1).drop_last() =~= self@.take(i as int));
            }
            match self.cells[i] {
                Some(p) => match p.kind {
                    PieceKind::King => {
                        count = count + 1;
                    },
                    _ => {},
                },
                None => {},
            }
            i = i + 1;
        }
        proof {
            assert(self@.take(64) =~= self@);
        }
        count < 2
    }

    /// Validate and apply a relocation or rotation for `player`, producing
    /// the board after the move. The conditions of `apply_move_spec` are
    /// checked in order and the first violated one is returned; the laser
    /// is not fired here.
    pub fn try_move_piece(self, player_move: &Move, player: Player) -> (r: Result<
        Board,
        InvalidMove,
    >)
        requires
            self.wf(),
            player_move.from.in_bounds(),
        ensures
            (match r {
                Ok(b2) => b2.wf() && apply_move_spec(self@, *player_move, player) == Ok::<
                    Seq<Option<Piece>>,
                    InvalidMove,
                >(b2@),
                Err(e) => apply_move_spec(self@, *player_move, player) == Err::<
                    Seq<Option<Piece>>,
                    InvalidMove,
                >(e),
            }),
    {
        let mut next = self;
        let piece = match next.get(player_move.from) {
            Some(p) => p,
            None => {
                return Err(InvalidMove::NoPieceAtFrom);
            },
        };
        if piece.allegiance != player {
            return Err(InvalidMove::NotYourPiece);
        }
        match player_move.kind {
            MoveKind::Move(direction) => {
                let to = match crate::geometry::add_compass_octant(player_move.from, direction) {
                    Some(to) => to,
                    None => {
                        return Err(InvalidMove::OutOfBounds);
                    },
                };
                if next.get(to).is_some() {
                    return Err(InvalidMove::DestinationOccupied);
                }
                next.set(to, Some(piece));
                next.set(player_move.from, None);
                Ok(next)
            },
            MoveKind::Rotate(chirality) => {
                let new_kind = match piece.kind {
                    PieceKind::King | PieceKind::Block { .. } => {
                        return Err(InvalidMove::CannotRotate);
                    },
                    PieceKind::OneSide(x) => PieceKind::OneSide(x.rotate(chirality)),
                    PieceKind::TwoSide(x) => PieceKind::TwoSide(x.rotate(chirality)),
                };
                next.set(player_move.from, Some(Piece { kind: new_kind, allegiance: piece.allegiance }));
                Ok(next)
            },
        }
    }

    /// Raycast a laser in a straight line until it exits the grid (`None`)
    /// or enters an occupied cell.
    pub fn cast_laser(&self, laser: Laser) -> (r: Option<(Coord, Piece)>)
        requires
            self.wf(),
            laser.position.in_bounds(),
        ensures
            r == cast_spec(self@, laser),
            (r matches Some(hit) ==> hit.0.in_bounds()),
    {
        let mut cur = laser;
        loop
            invariant
                self.wf(),
                cur.position.in_bounds(),
                cast_spec(self@, laser) == cast_spec(self@, cur),
            decreases ray_budget(cur),
        {
            match self.get(cur.position) {
                Some(piece) => {
                    return Some((cur.position, piece));
                },
                None => {
                    match cur.advance() {
                        Some(next) => {
                            cur = next;
                        },
                        None => {
                            return None;
                        },
                    }
                },
            }
        }
    }

    /// Bounce a laser off mirrors until it exits the grid (`None`) or
    /// strikes a piece that does not reflect; then the struck cell and the
    /// contents it takes are returned. The walk is bounded by the fuel of
    /// `bounce_spec`, which only a walk that never terminates can exhaust.
    pub fn bounce_laser(&self, laser: Laser) -> (r: Option<(Coord, Option<Piece>)>)
        requires
            self.wf(),
            laser.position.in_bounds(),
        ensures
            r == bounce_spec(self@, laser, 256),
            (r matches Some(hit) ==> hit.0.in_bounds()),
    {
        let mut cur = laser;
        let mut fuel: u16 = 256;
        loop
            invariant
                self.wf(),
                cur.position.in_bounds(),
                fuel <= 256,
                bounce_spec(self@, laser, 256) == bounce_spec(self@, cur, fuel as nat),
            decreases fuel,
        {
            match self.cast_laser(cur) {
                None => {
                    return None;
                },
                Some((hit_coord, hit_piece)) => {
                    match hit_piece.reflect(cur.direction) {
                        Err(new_state) => {
                            return Some((hit_coord, new_state));
                        },
                        Ok(new_direction) => {
                            if fuel == 0 {
                                return None;
                            }
                            match (Laser { position: hit_coord, direction: new_direction }).advance() {
                                None => {
                                    return None;
                                },
                                Some(next) => {
                                    cur = next;
                                    fuel = fuel - 1;
                                },
                            }
                        },
                    }
                },
            }
        }
    }

    /// Validate and apply a move for `player` in place, then fire that
    /// player's laser and resolve its single terminal hit, if any. On a
    /// rejection the board is left exactly as it was.
    pub fn try_move(&mut self, player_move: &Move, player: Player) -> (r: Result<(), InvalidMove>)
        requires
            old(self).wf(),
            player_move.from.in_bounds(),
        ensures
            final(self).wf(),
            (r is Ok <==> apply_move_spec(old(self)@, *player_move, player) is Ok),
            (r matches Err(e) ==> apply_move_spec(old(self)@, *player_move, player)
                == Err::<Seq<Option<Piece>>, InvalidMove>(e) && final(self)@ == old(self)@),
            (apply_move_spec(old(self)@, *player_move, player) matches Ok(moved) ==> final(self)@
                == resolve_laser_spec(moved, player)),
    {
        let moved = self.clone_board().try_move_piece(player_move, player);
        match moved {
            Ok(b2) => {
                *self = b2;
            },
            Err(e) => {
                return Err(e);
            },
        }
        let laser = match player {
            Player::Player1 => Laser {
                position: Coord { x: 7, y: 0 },
                direction: Heading::North,
            },
            Player::Player2 => Laser {
                position: Coord { x: 0, y: 7 },
                direction: Heading::South,
            },
        };
        match self.bounce_laser(laser) {
            Some((hit_coord, new_piece_state)) => {
                self.set(hit_coord, new_piece_state);
            },
            None => {},
        }
        Ok(())
    }

    /// A cell-for-cell copy whose view Verus knows equals the source
    /// board's.
    fn clone_board(&self) -> (r: Board)
        ensures
            r@ == self@,
            r.wf() == self.wf(),
    {
        let mut cells: Vec<Option<Piece>> = Vec::new();
        let mut i: usize = 0;
        let n = self.cells.len();
        while i < n
            invariant
                i <= n,
                n == self.cells@.len(),
                cells@ =~= self.cells@.take(i as int),
            decreases n - i,
        {
            cells.push(self.cells[i]);
            proof {
                assert(cells@ =~= self.cells@.take(i + 1));
            }
            i = i + 1;
        }
        proof {
            assert(self.cells@.take(n as int) =~= self.cells@);
        }
        let r = Board { cells };
        proof {
            assert(r@ =~= self@);
        }
        r
    }
}

impl Default for Board {
    /// An empty board.
    fn default() -> (b: Board)
        ensures
            b.wf(),
            b@ == empty_board(),
    {
        Board::empty()
    }
}

} // verus!
