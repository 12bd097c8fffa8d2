//! Rules engine for a two-player laser-chess game on an 8x8 grid.
//!
//! Pieces are kings, stackable blocking blocks, and mirrors with one or two
//! reflective faces. Each turn a player relocates or rotates one of their own
//! pieces; a laser then fires from that player's fixed corner, bounces off
//! correctly oriented mirror faces, and resolves against whatever it finally
//! strikes. The game is over once a king has been removed from the board.

pub mod board;
pub mod geometry;
pub mod laws;
pub mod messages;
pub mod notation;
pub mod piece;
pub mod render;
pub mod termination;

pub use board::{Board, InvalidMove, Laser, Move, MoveKind};
pub use geometry::{add_compass_octant, Chirality, Coord, Heading, Octant, Orientation};
pub use messages::{ClientRequest, ServerMessage};
pub use piece::{Piece, PieceKind, Player};
