use laser_chess::{
    Board, Chirality, Coord, InvalidMove, Move, MoveKind, Octant, Orientation, Piece, PieceKind,
    Player,
};

fn coord(x: usize, y: usize) -> Coord {
    Coord { x, y }
}

fn boards_equal(a: &Board, b: &Board) -> bool {
    for y in 0..8 {
        for x in 0..8 {
            if a.get(coord(x, y)) != b.get(coord(x, y)) {
                return false;
            }
        }
    }
    true
}

#[test]
fn empty_board_has_no_pieces() {
    let b = Board::empty();
    for y in 0..8 {
        for x in 0..8 {
            assert_eq!(b.get(coord(x, y)), None);
        }
    }
}

#[test]
fn starting_board_places_the_two_kings() {
    let b = Board::starting();
    assert_eq!(b.get(coord(4, 0)), Some(Piece::king(Player::Player2)));
    assert_eq!(b.get(coord(3, 7)), Some(Piece::king(Player::Player1)));
    assert_eq!(b.get(coord(0, 0)), None);
    assert!(!b.game_over());
}

#[test]
fn no_piece_at_from_is_rejected() {
    let b = Board::empty();
    let mv = Move { from: coord(3, 3), kind: MoveKind::Move(Octant::North) };
    assert_eq!(b.try_move_piece(&mv, Player::Player1).err(), Some(InvalidMove::NoPieceAtFrom));
}

#[test]
fn moving_the_opponents_piece_is_rejected() {
    let mut b = Board::empty();
    b.set(coord(3, 3), Some(Piece::block(Player::Player2)));
    // Rejected for every move payload, valid or not.
    let step = Move { from: coord(3, 3), kind: MoveKind::Move(Octant::North) };
    let turn = Move { from: coord(3, 3), kind: MoveKind::Rotate(Chirality::Clockwise) };
    assert_eq!(b.clone().try_move_piece(&step, Player::Player1).err(), Some(InvalidMove::NotYourPiece));
    assert_eq!(b.clone().try_move_piece(&turn, Player::Player1).err(), Some(InvalidMove::NotYourPiece));
    let mut mutated = b.clone();
    assert_eq!(mutated.try_move(&step, Player::Player1), Err(InvalidMove::NotYourPiece));
    assert!(boards_equal(&mutated, &b));
}

#[test]
fn moving_off_every_edge_is_out_of_bounds() {
    // For each edge cell and each heading pointing off the grid, the move
    // is rejected as OutOfBounds.
    let offgrid = |x: usize, y: usize, dir: Octant| -> bool {
        let (dx, dy): (i32, i32) = match dir {
            Octant::North => (0, 1),
            Octant::NorthEast => (1, 1),
            Octant::East => (1, 0),
            Octant::SouthEast => (1, -1),
            Octant::South => (0, -1),
            Octant::SouthWest => (-1, -1),
            Octant::West => (-1, 0),
            Octant::NorthWest => (-1, 1),
        };
        let nx = x as i32 + dx;
        let ny = y as i32 + dy;
        !(0..8).contains(&nx) || !(0..8).contains(&ny)
    };
    let dirs = [
        Octant::North,
        Octant::NorthEast,
        Octant::East,
        Octant::SouthEast,
        Octant::South,
        Octant::SouthWest,
        Octant::West,
        Octant::NorthWest,
    ];
    for y in 0..8 {
        for x in 0..8 {
            if x != 0 && x != 7 && y != 0 && y != 7 {
                continue;
            }
            let mut b = Board::empty();
            b.set(coord(x, y), Some(Piece::block(Player::Player1)));
            for dir in dirs {
                if offgrid(x, y, dir) {
                    let mv = Move { from: coord(x, y), kind: MoveKind::Move(dir) };
                    assert_eq!(
                        b.clone().try_move_piece(&mv, Player::Player1).err(),
                        Some(InvalidMove::OutOfBounds)
                    );
                }
            }
        }
    }
}

#[test]
fn moving_onto_any_occupied_cell_is_rejected() {
    // Friendly and enemy occupants both yield DestinationOccupied, and the
    // board is unchanged.
    for occupant in [Player::Player1, Player::Player2] {
        let mut b = Board::empty();
        b.set(coord(3, 3), Some(Piece::block(Player::Player1)));
        b.set(coord(3, 4), Some(Piece::king(occupant)));
        let mv = Move { from: coord(3, 3), kind: MoveKind::Move(Octant::North) };
        assert_eq!(
            b.clone().try_move_piece(&mv, Player::Player1).err(),
            Some(InvalidMove::DestinationOccupied)
        );
        let mut mutated = b.clone();
        assert_eq!(mutated.try_move(&mv, Player::Player1), Err(InvalidMove::DestinationOccupied));
        assert!(boards_equal(&mutated, &b));
    }
}

#[test]
fn a_legal_step_relocates_the_piece() {
    let mut b = Board::empty();
    b.set(coord(3, 3), Some(Piece::mirror(Player::Player1, Orientation::NE)));
    let mv = Move { from: coord(3, 3), kind: MoveKind::Move(Octant::SouthWest) };
    let after = b.try_move_piece(&mv, Player::Player1).unwrap();
    assert_eq!(after.get(coord(3, 3)), None);
    assert_eq!(after.get(coord(2, 2)), Some(Piece::mirror(Player::Player1, Orientation::NE)));
}

#[test]
fn kings_and_blocks_cannot_rotate() {
    let mut b = Board::empty();
    b.set(coord(1, 1), Some(Piece::king(Player::Player1)));
    b.set(coord(2, 2), Some(Piece::block(Player::Player1)));
    for from in [coord(1, 1), coord(2, 2)] {
        for chirality in [Chirality::Clockwise, Chirality::CounterClockwise] {
            let mv = Move { from, kind: MoveKind::Rotate(chirality) };
            assert_eq!(
                b.clone().try_move_piece(&mv, Player::Player1).err(),
                Some(InvalidMove::CannotRotate)
            );
        }
    }
}

#[test]
fn four_rotations_return_to_the_start() {
    for orientation in [Orientation::NE, Orientation::NW, Orientation::SE, Orientation::SW] {
        for chirality in [Chirality::Clockwise, Chirality::CounterClockwise] {
            let mut o = orientation;
            for _ in 0..4 {
                o = o.rotate(chirality);
            }
            assert_eq!(o, orientation);
        }
    }
}

#[test]
fn rotation_steps_through_all_four_orientations() {
    assert_eq!(Orientation::NE.rotate(Chirality::Clockwise), Orientation::SE);
    assert_eq!(Orientation::SE.rotate(Chirality::Clockwise), Orientation::SW);
    assert_eq!(Orientation::SW.rotate(Chirality::Clockwise), Orientation::NW);
    assert_eq!(Orientation::NW.rotate(Chirality::Clockwise), Orientation::NE);
    assert_eq!(Orientation::NE.rotate(Chirality::CounterClockwise), Orientation::NW);
    assert_eq!(Orientation::NW.rotate(Chirality::CounterClockwise), Orientation::SW);
    assert_eq!(Orientation::SW.rotate(Chirality::CounterClockwise), Orientation::SE);
    assert_eq!(Orientation::SE.rotate(Chirality::CounterClockwise), Orientation::NE);
}

#[test]
fn rotating_a_mirror_in_place_keeps_cell_and_owner() {
    // A mirror piece on the board rotates through four quarter turns back
    // to its original facing, never leaving its cell.
    let mut b = Board::empty();
    // Keep both kings on the board so the lasers fired after each turn
    // change nothing.
    b.set(coord(3, 7), Some(Piece::king(Player::Player1)));
    b.set(coord(4, 0), Some(Piece::king(Player::Player2)));
    b.set(coord(2, 2), Some(Piece::two_sided(Player::Player1, Orientation::NE)));
    let mv = Move { from: coord(2, 2), kind: MoveKind::Rotate(Chirality::Clockwise) };
    let mut seen = Vec::new();
    for _ in 0..4 {
        assert_eq!(b.try_move(&mv, Player::Player1), Ok(()));
        seen.push(b.get(coord(2, 2)));
    }
    assert_eq!(
        seen,
        vec![
            Some(Piece::two_sided(Player::Player1, Orientation::SE)),
            Some(Piece::two_sided(Player::Player1, Orientation::SW)),
            Some(Piece::two_sided(Player::Player1, Orientation::NW)),
            Some(Piece::two_sided(Player::Player1, Orientation::NE)),
        ]
    );
}

#[test]
fn rejection_messages_name_the_reason() {
    assert_eq!(InvalidMove::OutOfBounds.message(), "Move goes out of bounds");
    assert_eq!(InvalidMove::NoPieceAtFrom.message(), "No piece at 'from' position");
    assert_eq!(
        InvalidMove::NotYourPiece.message(),
        "The piece at 'from' does not belong to you"
    );
    assert_eq!(
        InvalidMove::DestinationOccupied.message(),
        "The destination cell is already occupied"
    );
    assert_eq!(InvalidMove::CannotRotate.message(), "This piece cannot be rotated");
}

#[test]
fn player_indices_round_trip() {
    assert_eq!(Player::Player1.index(), 0);
    assert_eq!(Player::Player2.index(), 1);
    assert_eq!(Player::from_index(0), Some(Player::Player1));
    assert_eq!(Player::from_index(1), Some(Player::Player2));
    assert_eq!(Player::from_index(2), None);
    assert_eq!(Player::Player1.opponent(), Player::Player2);
    assert_eq!(Player::Player2.opponent(), Player::Player1);
}

#[test]
fn opposing_flips_owner_and_mirrors_orientation() {
    let p = Piece::mirror(Player::Player1, Orientation::NE).opposing();
    assert_eq!(p, Piece::mirror(Player::Player2, Orientation::SW));
    let q = Piece::two_sided(Player::Player2, Orientation::NW).opposing();
    assert_eq!(q, Piece::two_sided(Player::Player1, Orientation::SE));
    let k = Piece::king(Player::Player1).opposing();
    assert_eq!(k, Piece::king(Player::Player2));
    let b = Piece::block(Player::Player2).opposing();
    assert_eq!(b, Piece::block(Player::Player1));
}

#[test]
fn game_over_counts_kings() {
    let mut b = Board::starting();
    assert!(!b.game_over());
    // Removing either king ends the game.
    let mut without_p1 = b.clone();
    without_p1.set(coord(3, 7), None);
    assert!(without_p1.game_over());
    b.set(coord(4, 0), None);
    assert!(b.game_over());
    assert!(Board::empty().game_over());
}
