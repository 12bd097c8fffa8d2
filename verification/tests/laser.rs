use laser_chess::Heading::{East, North, South, West};
use laser_chess::Orientation::{NE, NW, SE, SW};
use laser_chess::{
    Board, Chirality, Coord, Heading, Laser, Move, MoveKind, Octant, Orientation, Piece,
    PieceKind, Player,
};

fn coord(x: usize, y: usize) -> Coord {
    Coord { x, y }
}

const HEADINGS: [Heading; 4] = [Heading::North, Heading::East, Heading::South, Heading::West];

#[test]
fn one_sided_mirrors_reflect_exactly_per_table() {
    // (orientation, incoming, outgoing); every other incoming heading is
    // absorbed without touching the piece.
    let table = [
        (NE, South, East),
        (NE, West, North),
        (NW, South, West),
        (NW, East, North),
        (SE, North, East),
        (SE, West, South),
        (SW, North, West),
        (SW, East, South),
    ];
    for orientation in [NE, NW, SE, SW] {
        let kind = PieceKind::OneSide(orientation);
        for dir in HEADINGS {
            let expected = table.iter().find(|row| row.0 == orientation && row.1 == dir);
            match expected {
                Some(row) => assert_eq!(kind.reflect(dir), Ok(row.2)),
                None => assert_eq!(kind.reflect(dir), Err(Some(kind))),
            }
        }
    }
}

#[test]
fn two_sided_mirrors_reflect_every_heading() {
    for orientation in [NE, SW] {
        let kind = PieceKind::TwoSide(orientation);
        assert_eq!(kind.reflect(South), Ok(East));
        assert_eq!(kind.reflect(West), Ok(North));
        assert_eq!(kind.reflect(North), Ok(West));
        assert_eq!(kind.reflect(East), Ok(South));
    }
    for orientation in [NW, SE] {
        let kind = PieceKind::TwoSide(orientation);
        assert_eq!(kind.reflect(South), Ok(West));
        assert_eq!(kind.reflect(East), Ok(North));
        assert_eq!(kind.reflect(North), Ok(East));
        assert_eq!(kind.reflect(West), Ok(South));
    }
}

#[test]
fn blocks_and_kings_stop_the_laser() {
    for dir in HEADINGS {
        assert_eq!(
            PieceKind::Block { stacked: true }.reflect(dir),
            Err(Some(PieceKind::Block { stacked: false }))
        );
        assert_eq!(PieceKind::Block { stacked: false }.reflect(dir), Err(None));
        assert_eq!(PieceKind::King.reflect(dir), Err(None));
    }
}

#[test]
fn piece_reflect_keeps_the_allegiance() {
    let block = Piece::block(Player::Player2);
    assert_eq!(
        block.reflect(Heading::North),
        Err(Some(Piece {
            kind: PieceKind::Block { stacked: false },
            allegiance: Player::Player2,
        }))
    );
    let mirror = Piece::mirror(Player::Player1, Orientation::NE);
    assert_eq!(mirror.reflect(Heading::North), Err(Some(mirror)));
    assert_eq!(mirror.reflect(Heading::South), Ok(Heading::East));
}

#[test]
fn laser_advance_steps_and_stops_at_walls() {
    let l = Laser { position: coord(3, 3), direction: Heading::North };
    assert_eq!(
        l.advance(),
        Some(Laser { position: coord(3, 4), direction: Heading::North })
    );
    let edge = Laser { position: coord(3, 7), direction: Heading::North };
    assert_eq!(edge.advance(), None);
    let west_edge = Laser { position: coord(0, 3), direction: Heading::West };
    assert_eq!(west_edge.advance(), None);
}

#[test]
fn cast_finds_the_first_piece_in_line() {
    let mut b = Board::empty();
    b.set(coord(7, 5), Some(Piece::block(Player::Player2)));
    b.set(coord(7, 6), Some(Piece::king(Player::Player2)));
    let hit = b.cast_laser(Laser { position: coord(7, 0), direction: Heading::North });
    assert_eq!(hit, Some((coord(7, 5), Piece::block(Player::Player2))));
    let miss = b.cast_laser(Laser { position: coord(6, 0), direction: Heading::North });
    assert_eq!(miss, None);
}

#[test]
fn empty_column_lets_the_laser_exit() {
    // The scenario board: kings at (3,7) and (4,0), nothing in column 7.
    let b = Board::starting();
    let r = b.bounce_laser(Laser { position: coord(7, 0), direction: Heading::North });
    assert_eq!(r, None);
    let mut played = b.clone();
    let mv = Move { from: coord(3, 7), kind: MoveKind::Move(Octant::South) };
    assert_eq!(played.try_move(&mv, Player::Player1), Ok(()));
    assert_eq!(played.get(coord(3, 6)), Some(Piece::king(Player::Player1)));
    assert!(!played.game_over());
}

#[test]
fn non_reflective_hit_is_absorbed_and_leaves_the_mirror() {
    // The scenario board plus a OneSide(NW) of Player2 at (7,3): the laser
    // travelling North is not listed for OneSide(NW), so it is absorbed
    // and the piece stays.
    let mut b = Board::starting();
    let mirror = Piece::mirror(Player::Player2, Orientation::NW);
    b.set(coord(7, 3), Some(mirror));
    let r = b.bounce_laser(Laser { position: coord(7, 0), direction: Heading::North });
    assert_eq!(r, Some((coord(7, 3), Some(mirror))));
    let mv = Move { from: coord(3, 7), kind: MoveKind::Move(Octant::South) };
    assert_eq!(b.try_move(&mv, Player::Player1), Ok(()));
    assert_eq!(b.get(coord(7, 3)), Some(mirror));
    assert!(!b.game_over());
}

#[test]
fn stacked_block_downgrades_then_dies() {
    let mut b = Board::starting();
    b.set(coord(7, 4), Some(Piece::block(Player::Player2)));
    b.set(coord(0, 0), Some(Piece::block(Player::Player1)));
    // First hit: the stacked block loses its stack but stays.
    let east = Move { from: coord(0, 0), kind: MoveKind::Move(Octant::East) };
    assert_eq!(b.try_move(&east, Player::Player1), Ok(()));
    assert_eq!(
        b.get(coord(7, 4)),
        Some(Piece {
            kind: PieceKind::Block { stacked: false },
            allegiance: Player::Player2,
        })
    );
    // Second hit: the un-stacked block is removed.
    let west = Move { from: coord(1, 0), kind: MoveKind::Move(Octant::West) };
    assert_eq!(b.try_move(&west, Player::Player1), Ok(()));
    assert_eq!(b.get(coord(7, 4)), None);
    assert!(!b.game_over());
}

#[test]
fn laser_removes_a_king_and_ends_the_game() {
    let mut b = Board::starting();
    b.set(coord(7, 5), Some(Piece::king(Player::Player2)));
    b.set(coord(4, 0), None);
    b.set(coord(0, 0), Some(Piece::block(Player::Player1)));
    let east = Move { from: coord(0, 0), kind: MoveKind::Move(Octant::East) };
    assert_eq!(b.try_move(&east, Player::Player1), Ok(()));
    assert_eq!(b.get(coord(7, 5)), None);
    assert!(b.game_over());
}

#[test]
fn reflections_carry_the_laser_to_a_target() {
    // Player1's laser goes up column 7, turns West on a two-sided mirror
    // at (7,4), and lands on the block at (2,4).
    let mut b = Board::starting();
    b.set(coord(7, 4), Some(Piece::two_sided(Player::Player1, Orientation::NE)));
    b.set(coord(2, 4), Some(Piece::block(Player::Player2)));
    let r = b.bounce_laser(Laser { position: coord(7, 0), direction: Heading::North });
    assert_eq!(
        r,
        Some((
            coord(2, 4),
            Some(Piece {
                kind: PieceKind::Block { stacked: false },
                allegiance: Player::Player2,
            })
        ))
    );
}

#[test]
fn a_mirror_cannot_reflect_into_itself_at_distance_zero() {
    // A reflection steps the laser one cell before the next occupancy
    // test, so a mirror on the wall that turns the laser into the wall
    // just lets it exit.
    let mut b = Board::empty();
    b.set(coord(7, 4), Some(Piece::two_sided(Player::Player1, Orientation::NW)));
    // North in: NW family turns North to East, which leaves the grid.
    let r = b.bounce_laser(Laser { position: coord(7, 0), direction: Heading::North });
    assert_eq!(r, None);
}

#[test]
fn closed_mirror_loop_still_terminates() {
    // Four two-sided mirrors that pass a laser around a rectangle forever:
    // (0,5) sends North to East, (5,5) East to South, (5,0) South to West,
    // (0,0) West to North. A laser fired into the loop never exits and
    // never strikes a terminal piece; the engine reports no hit rather
    // than walking forever.
    let mut b = Board::empty();
    b.set(coord(0, 5), Some(Piece::two_sided(Player::Player1, Orientation::NW)));
    b.set(coord(5, 5), Some(Piece::two_sided(Player::Player1, Orientation::NE)));
    b.set(coord(5, 0), Some(Piece::two_sided(Player::Player1, Orientation::SE)));
    b.set(coord(0, 0), Some(Piece::two_sided(Player::Player1, Orientation::SW)));
    let r = b.bounce_laser(Laser { position: coord(0, 1), direction: Heading::North });
    assert_eq!(r, None);
}

#[test]
fn a_board_full_of_mirrors_terminates() {
    // Every cell holds a mirror; the laser bounces among them and the
    // engine still returns.
    let mut b = Board::empty();
    for y in 0..8 {
        for x in 0..8 {
            let owner = if (x + y) % 2 == 0 { Player::Player1 } else { Player::Player2 };
            b.set(coord(x, y), Some(Piece::two_sided(owner, Orientation::NE)));
        }
    }
    let mv = Move { from: coord(0, 0), kind: MoveKind::Rotate(Chirality::Clockwise) };
    assert_eq!(b.try_move(&mv, Player::Player1), Ok(()));
}

#[test]
fn a_piece_on_the_firing_corner_is_hit_at_once() {
    // The walk tests the origin cell before its first step, so a piece
    // parked on the mover's own corner takes the hit immediately.
    let mut b = Board::empty();
    b.set(coord(7, 0), Some(Piece::block(Player::Player1)));
    let r = b.bounce_laser(Laser { position: coord(7, 0), direction: Heading::North });
    assert_eq!(
        r,
        Some((
            coord(7, 0),
            Some(Piece {
                kind: PieceKind::Block { stacked: false },
                allegiance: Player::Player1,
            })
        ))
    );
}
