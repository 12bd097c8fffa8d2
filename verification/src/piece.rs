//! Players, pieces, and the reflection rules of mirror faces.

use vstd::prelude::*;

use crate::geometry::{spec_mirrored, spec_rotate, Chirality, Heading, Orientation};

verus! {

/// One of the two fixed player identities.
#[derive(Clone, Copy, Debug, PartialEq, Eq, Structural)]
pub enum Player {
    Player1,
    Player2,
}

impl Player {
    /// The stable 0/1 index of this player.
    pub fn index(&self) -> (r: usize)
        ensures
            r == (if self is Player1 { 0int } else { 1int }),
    {
        match self {
            Player::Player1 => 0,
            Player::Player2 => 1,
        }
    }

    /// The player with the given index, for indices 0 and 1.
    pub fn from_index(index: usize) -> (r: Option<Player>)
        ensures
            index == 0 ==> r == Some(Player::Player1),
            index == 1 ==> r == Some(Player::Player2),
            index >= 2 ==> r is None,
    {
        match index {
            0 => Some(Player::Player1),
            1 => Some(Player::Player2),
            _ => None,
        }
    }

    /// The other player.
    pub fn opponent(&self) -> (r: Player)
        ensures
            r == (if self is Player1 { Player::Player2 } else { Player::Player1 }),
            r != *self,
    {
        match self {
            Player::Player1 => Player::Player2,
            Player::Player2 => Player::Player1,
        }
    }
}

/// What kind of piece occupies a cell.
#[derive(Clone, Copy, Debug, PartialEq, Eq, Structural)]
pub enum PieceKind {
    /// Losing this piece ends the game; removed by any laser hit.
    King,
    /// A blocking piece. A stacked block survives one hit by losing its
    /// stack; an un-stacked block is removed by a hit.
    Block { stacked: bool },
    /// A mirror with a single reflective face.
    OneSide(Orientation),
    /// A mirror with two reflective faces.
    TwoSide(Orientation),
}

/// A piece: its kind plus which player owns it.
#[derive(Clone, Copy, Debug, PartialEq, Eq, Structural)]
pub struct Piece {
    pub kind: PieceKind,
    pub allegiance: Player,
}

/// The outcome of a laser entering an occupied cell while travelling along
/// `dir`: either the laser leaves along a new heading, or it terminates and
/// the struck cell takes the returned contents. An absorbed hit on a mirror
/// returns the mirror itself, so the board is unchanged there; only kings
/// and blocks are ever removed or downgraded.
pub open spec fn spec_reflect_kind(kind: PieceKind, dir: Heading) -> Result<
    Heading,
    Option<PieceKind>,
> {
    match (kind, dir) {
        (PieceKind::OneSide(Orientation::NE), Heading::South) => Ok(Heading::East),
        (PieceKind::OneSide(Orientation::NE), Heading::West) => Ok(Heading::North),
        (PieceKind::OneSide(Orientation::NW), Heading::South) => Ok(Heading::West),
        (PieceKind::OneSide(Orientation::NW), Heading::East) => Ok(Heading::North),
        (PieceKind::OneSide(Orientation::SE), Heading::North) => Ok(Heading::East),
        (PieceKind::OneSide(Orientation::SE), Heading::West) => Ok(Heading::South),
        (PieceKind::OneSide(Orientation::SW), Heading::North) => Ok(Heading::West),
        (PieceKind::OneSide(Orientation::SW), Heading::East) => Ok(Heading::South),
        (PieceKind::OneSide(o), _) => Err(Some(PieceKind::OneSide(o))),
        (PieceKind::TwoSide(Orientation::NE | Orientation::SW), Heading::South) => Ok(
            Heading::East,
        ),
        (PieceKind::TwoSide(Orientation::NE | Orientation::SW), Heading::West) => Ok(
            Heading::North,
        ),
        (PieceKind::TwoSide(Orientation::NE | Orientation::SW), Heading::North) => Ok(
            Heading::West,
        ),
        (PieceKind::TwoSide(Orientation::NE | Orientation::SW), Heading::East) => Ok(
            Heading::South,
        ),
        (PieceKind::TwoSide(Orientation::NW | Orientation::SE), Heading::South) => Ok(
            Heading::West,
        ),
        (PieceKind::TwoSide(Orientation::NW | Orientation::SE), Heading::East) => Ok(
            Heading::North,
        ),
        (PieceKind::TwoSide(Orientation::NW | Orientation::SE), Heading::North) => Ok(
            Heading::East,
        ),
        (PieceKind::TwoSide(Orientation::NW | Orientation::SE), Heading::West) => Ok(
            Heading::South,
        ),
        (PieceKind::Block { stacked: true }, _) => Err(Some(PieceKind::Block { stacked: false })),
        (PieceKind::Block { stacked: false }, _) => Err(None),
        (PieceKind::King, _) => Err(None),
    }
}

/// `Piece::reflect` over views: the terminal contents keep the struck
/// piece's allegiance.
pub open spec fn spec_reflect(piece: Piece, dir: Heading) -> Result<Heading, Option<Piece>> {
    match spec_reflect_kind(piece.kind, dir) {
        Ok(new_dir) => Ok(new_dir),
        Err(new_kind) => Err(
            match new_kind {
                Some(k) => Some(Piece { kind: k, allegiance: piece.allegiance }),
                None => None,
            },
        ),
    }
}

impl PieceKind {
    /// The kind as seen from the other side of the board: mirror facings
    /// are point-reflected, everything else is unchanged.
    pub fn mirrored(self) -> (r: PieceKind)
        ensures
            r == (match self {
                PieceKind::OneSide(o) => PieceKind::OneSide(spec_mirrored(o)),
                PieceKind::TwoSide(o) => PieceKind::TwoSide(spec_mirrored(o)),
                k => k,
            }),
    {
        match self {
            PieceKind::OneSide(orientation) => PieceKind::OneSide(orientation.mirrored()),
            PieceKind::TwoSide(orientation) => PieceKind::TwoSide(orientation.mirrored()),
            x => x,
        }
    }

    /// Resolve a laser that entered this piece's cell travelling along
    /// `direction`.
    pub fn reflect(&self, direction: Heading) -> (r: Result<Heading, Option<PieceKind>>)
        ensures
            r == spec_reflect_kind(*self, direction),
    {
        match (self, direction) {
            (PieceKind::OneSide(Orientation::NE), Heading::South) => Ok(Heading::East),
            (PieceKind::OneSide(Orientation::NE), Heading::West) => Ok(Heading::North),
            (PieceKind::OneSide(Orientation::NW), Heading::South) => Ok(Heading::West),
            (PieceKind::OneSide(Orientation::NW), Heading::East) => Ok(Heading::North),
            (PieceKind::OneSide(Orientation::SE), Heading::North) => Ok(Heading::East),
            (PieceKind::OneSide(Orientation::SE), Heading::West) => Ok(Heading::South),
            (PieceKind::OneSide(Orientation::SW), Heading::North) => Ok(Heading::West),
            (PieceKind::OneSide(Orientation::SW), Heading::East) => Ok(Heading::South),
            (PieceKind::OneSide(o), _) => Err(Some(PieceKind::OneSide(*o))),
            (PieceKind::TwoSide(Orientation::NE | Orientation::SW), Heading::South) => Ok(
                Heading::East,
            ),
            (PieceKind::TwoSide(Orientation::NE | Orientation::SW), Heading::West) => Ok(
                Heading::North,
            ),
            (PieceKind::TwoSide(Orientation::NE | Orientation::SW), Heading::North) => Ok(
                Heading::West,
            ),
            (PieceKind::TwoSide(Orientation::NE | Orientation::SW), Heading::East) => Ok(
                Heading::South,
            ),
            (PieceKind::TwoSide(Orientation::NW | Orientation::SE), Heading::South) => Ok(
                Heading::West,
            ),
            (PieceKind::TwoSide(Orientation::NW | Orientation::SE), Heading::East) => Ok(
                Heading::North,
            ),
            (PieceKind::TwoSide(Orientation::NW | Orientation::SE), Heading::North) => Ok(
                Heading::East,
            ),
            (PieceKind::TwoSide(Orientation::NW | Orientation::SE), Heading::West) => Ok(
                Heading::South,
            ),
            (PieceKind::Block { stacked: true }, _) => Err(
                Some(PieceKind::Block { stacked: false }),
            ),
            (PieceKind::Block { stacked: false }, _) => Err(None),
            (PieceKind::King, _) => Err(None),
        }
    }
}

impl Piece {
    /// A king owned by `allegiance`.
    pub fn king(allegiance: Player) -> (r: Piece)
        ensures
            r == (Piece { kind: PieceKind::King, allegiance }),
    {
        Piece { kind: PieceKind::King, allegiance }
    }

    /// A fresh, still stacked block owned by `allegiance`.
    pub fn block(allegiance: Player) -> (r: Piece)
        ensures
            r == (Piece { kind: PieceKind::Block { stacked: true }, allegiance }),
    {
        Piece { kind: PieceKind::Block { stacked: true }, allegiance }
    }

    /// A single-faced mirror owned by `allegiance`.
    pub fn mirror(allegiance: Player, orientation: Orientation) -> (r: Piece)
        ensures
            r == (Piece { kind: PieceKind::OneSide(orientation), allegiance }),
    {
        Piece { kind: PieceKind::OneSide(orientation), allegiance }
    }

    /// A double-faced mirror owned by `allegiance`.
    pub fn two_sided(allegiance: Player, orientation: Orientation) -> (r: Piece)
        ensures
            r == (Piece { kind: PieceKind::TwoSide(orientation), allegiance }),
    {
        Piece { kind: PieceKind::TwoSide(orientation), allegiance }
    }

    /// The same piece handed to the opposite player: allegiance flipped and
    /// any mirror facing point-reflected.
    pub fn opposing(self) -> (r: Piece)
        ensures
            r.allegiance == (if self.allegiance is Player1 {
                Player::Player2
            } else {
                Player::Player1
            }),
            r.kind == (match self.kind {
                PieceKind::OneSide(o) => PieceKind::OneSide(spec_mirrored(o)),
                PieceKind::TwoSide(o) => PieceKind::TwoSide(spec_mirrored(o)),
                k => k,
            }),
    {
        Piece { kind: self.kind.mirrored(), allegiance: self.allegiance.opponent() }
    }

    /// Resolve a laser that entered this piece's cell travelling along
    /// `direction`: the laser's new heading if this is a correctly oriented
    /// mirror face, otherwise the contents the struck cell takes.
    pub fn reflect(&self, direction: Heading) -> (r: Result<Heading, Option<Piece>>)
        ensures
            r == spec_reflect(*self, direction),
    {
        match self.kind.reflect(direction) {
            Ok(new_direction) => Ok(new_direction),
            Err(destroyed_kind) => Err(
                match destroyed_kind {
                    Some(kind) => Some(Piece { kind, allegiance: self.allegiance }),
                    None => None,
                },
            ),
        }
    }
}

/// Rotating a piece keeps its stack state; only rotation of the orientation
/// itself is modelled here.
pub open spec fn spec_rotate_kind(kind: PieceKind, chirality: Chirality) -> Option<PieceKind> {
    match kind {
        PieceKind::King => None,
        PieceKind::Block { .. } => None,
        PieceKind::OneSide(o) => Some(PieceKind::OneSide(spec_rotate(o, chirality))),
        PieceKind::TwoSide(o) => Some(PieceKind::TwoSide(spec_rotate(o, chirality))),
    }
}

} // verus!
