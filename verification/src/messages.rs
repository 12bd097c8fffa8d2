//! The payloads exchanged with the match orchestrator: a setup handshake
//! carrying a display name, and a per-turn exchange carrying one move.
//! Transport framing and serialisation live with the orchestrator.

use vstd::prelude::*;

use crate::board::{Board, Move};

verus! {

/// What a client sends the orchestrator.
#[derive(Debug)]
pub enum ClientRequest {
    InitialSetup { player_name: String },
    Move(Move),
}

/// What the orchestrator sends a client.
#[derive(Debug)]
pub enum ServerMessage {
    InitialSetup { board: Board, player_order: usize, opponent_name: String },
    OpponentMoved(Move),
}

} // verus!
