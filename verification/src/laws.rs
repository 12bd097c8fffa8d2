//! Proved laws of the engine: the rejection rules of move validation, the
//! closure of rotation, what a laser can and cannot destroy, and the win
//! condition.

use vstd::prelude::*;

use crate::board::{
    apply_move_spec, bounce_spec, cast_spec, cell_idx, is_king_cell, king_count, spec_game_over,
    InvalidMove, Laser, Move, MoveKind,
};
use crate::geometry::{
    octant_dx, octant_dy, spec_rotate, step_heading, Chirality, Coord, Heading, Octant,
    Orientation,
};
use crate::piece::{spec_reflect, spec_reflect_kind, Piece, PieceKind, Player};

verus! {

/// A `Move` whose single step leaves the grid on either axis is rejected
/// as `OutOfBounds`, for every cell, every off-grid direction and every
/// piece the mover owns there.
pub proof fn lemma_move_off_grid_rejected(
    b: Seq<Option<Piece>>,
    from: Coord,
    dir: Octant,
    player: Player,
)
    requires
        b.len() == 64,
        from.in_bounds(),
        b[cell_idx(from)] matches Some(p) && p.allegiance == player,
        !(0 <= from.x + octant_dx(dir) < 8 && 0 <= from.y + octant_dy(dir) < 8),
    ensures
        apply_move_spec(b, Move { from, kind: MoveKind::Move(dir) }, player) == Err::<
            Seq<Option<Piece>>,
            InvalidMove,
        >(InvalidMove::OutOfBounds),
{
}

/// Moving onto any occupied cell, friendly or enemy, is rejected as
/// `DestinationOccupied`.
pub proof fn lemma_destination_occupied_rejected(
    b: Seq<Option<Piece>>,
    from: Coord,
    dir: Octant,
    player: Player,
)
    requires
        b.len() == 64,
        from.in_bounds(),
        b[cell_idx(from)] matches Some(p) && p.allegiance == player,
        crate::geometry::step_octant(from, dir) matches Some(to) && b[cell_idx(to)] is Some,
    ensures
        apply_move_spec(b, Move { from, kind: MoveKind::Move(dir) }, player) == Err::<
            Seq<Option<Piece>>,
            InvalidMove,
        >(InvalidMove::DestinationOccupied),
{
}

/// A submission whose `from` cell holds the opponent's piece is rejected
/// as `NotYourPiece`, whatever else the move would have done.
pub proof fn lemma_not_your_piece_rejected(b: Seq<Option<Piece>>, mv: Move, player: Player)
    requires
        b.len() == 64,
        mv.from.in_bounds(),
        b[cell_idx(mv.from)] matches Some(p) && p.allegiance != player,
    ensures
        apply_move_spec(b, mv, player) == Err::<Seq<Option<Piece>>, InvalidMove>(
            InvalidMove::NotYourPiece,
        ),
{
}

/// Four quarter turns with the same chirality bring every orientation back
/// to where it started.
pub proof fn lemma_rotation_closure(o: Orientation, chirality: Chirality)
    ensures
        spec_rotate(
            spec_rotate(spec_rotate(spec_rotate(o, chirality), chirality), chirality),
            chirality,
        ) == o,
{
}

/// Rotating a king or a block is always rejected as `CannotRotate`.
pub proof fn lemma_king_block_cannot_rotate(
    b: Seq<Option<Piece>>,
    from: Coord,
    chirality: Chirality,
    player: Player,
)
    requires
        b.len() == 64,
        from.in_bounds(),
        b[cell_idx(from)] matches Some(p) && p.allegiance == player && (p.kind is King
            || p.kind is Block),
    ensures
        apply_move_spec(b, Move { from, kind: MoveKind::Rotate(chirality) }, player) == Err::<
            Seq<Option<Piece>>,
            InvalidMove,
        >(InvalidMove::CannotRotate),
{
}

/// A laser never removes a mirror: whenever a hit on a one- or two-sided
/// mirror is terminal, the struck cell keeps exactly the piece it held,
/// and a two-sided mirror reflects every heading.
pub proof fn lemma_mirrors_never_destroyed(kind: PieceKind, dir: Heading)
    requires
        kind is OneSide || kind is TwoSide,
    ensures
        (spec_reflect_kind(kind, dir) matches Err(state) ==> state == Some(kind)),
        (kind is TwoSide ==> spec_reflect_kind(kind, dir) is Ok),
{
}

/// A laser hit on a block or a king is terminal for every heading: a
/// stacked block survives as an un-stacked block, an un-stacked block and
/// a king are removed.
pub proof fn lemma_block_and_king_hits(dir: Heading)
    ensures
        spec_reflect_kind(PieceKind::Block { stacked: true }, dir) == Err::<Heading, _>(
            Some(PieceKind::Block { stacked: false }),
        ),
        spec_reflect_kind(PieceKind::Block { stacked: false }, dir) == Err::<
            Heading,
            Option<PieceKind>,
        >(None),
        spec_reflect_kind(PieceKind::King, dir) == Err::<Heading, Option<PieceKind>>(None),
{
}

/// A laser walk that strikes a piece delivers the same verdict under any
/// larger reflection bound: the bound only cuts off walks that would
/// otherwise never terminate.
pub proof fn lemma_bounce_fuel_stable(b: Seq<Option<Piece>>, laser: Laser, fuel1: nat, fuel2: nat)
    requires
        bounce_spec(b, laser, fuel1) is Some,
        fuel1 <= fuel2,
    ensures
        bounce_spec(b, laser, fuel2) == bounce_spec(b, laser, fuel1),
    decreases fuel1,
{
    match cast_spec(b, laser) {
        None => {},
        Some((hit_coord, hit_piece)) => {
            match spec_reflect(hit_piece, laser.direction) {
                Err(_) => {},
                Ok(new_direction) => {
                    match step_heading(hit_coord, new_direction) {
                        None => {},
                        Some(next) => {
                            lemma_bounce_fuel_stable(
                                b,
                                Laser { position: next, direction: new_direction },
                                (fuel1 - 1) as nat,
                                (fuel2 - 1) as nat,
                            );
                        },
                    }
                },
            }
        },
    }
}

/// The number of kings on a board is never negative.
pub proof fn lemma_king_count_nonneg(b: Seq<Option<Piece>>)
    ensures
        king_count(b) >= 0,
    decreases b.len(),
{
    if b.len() > 0 {
        lemma_king_count_nonneg(b.drop_last());
    }
}

/// A board with a king on some cell holds at least one king.
pub proof fn lemma_king_present(b: Seq<Option<Piece>>, i: int)
    requires
        0 <= i < b.len(),
        is_king_cell(b[i]),
    ensures
        king_count(b) >= 1,
    decreases b.len(),
{
    lemma_king_count_nonneg(b.drop_last());
    if i < b.len() - 1 {
        lemma_king_present(b.drop_last(), i);
    }
}

/// Replacing one cell changes the king count by exactly the difference the
/// old and new contents make.
pub proof fn lemma_king_count_update(b: Seq<Option<Piece>>, i: int, v: Option<Piece>)
    requires
        0 <= i < b.len(),
    ensures
        king_count(b.update(i, v)) == king_count(b) - (if is_king_cell(b[i]) {
            1int
        } else {
            0int
        }) + (if is_king_cell(v) {
            1int
        } else {
            0int
        }),
    decreases b.len(),
{
    let bu = b.update(i, v);
    if i == b.len() - 1 {
        assert(bu.drop_last() =~= b.drop_last());
    } else {
        assert(bu.drop_last() =~= b.drop_last().update(i, v));
        lemma_king_count_update(b.drop_last(), i, v);
    }
}

/// A board that still holds kings on two distinct cells does not report
/// the game as over.
pub proof fn lemma_two_kings_game_on(b: Seq<Option<Piece>>, c1: Coord, c2: Coord)
    requires
        b.len() == 64,
        c1.in_bounds(),
        c2.in_bounds(),
        cell_idx(c1) != cell_idx(c2),
        is_king_cell(b[cell_idx(c1)]),
        is_king_cell(b[cell_idx(c2)]),
    ensures
        !spec_game_over(b),
{
    lemma_king_count_update(b, cell_idx(c1), None);
    lemma_king_present(b.update(cell_idx(c1), None), cell_idx(c2));
}

/// On a board with at most the two kings an ongoing game allows, emptying
/// either king's cell makes the game over.
pub proof fn lemma_removing_king_ends(b: Seq<Option<Piece>>, c: Coord)
    requires
        b.len() == 64,
        c.in_bounds(),
        is_king_cell(b[cell_idx(c)]),
        king_count(b) <= 2,
    ensures
        spec_game_over(b.update(cell_idx(c), None)),
{
    lemma_king_count_update(b, cell_idx(c), None);
}

} // verus!
