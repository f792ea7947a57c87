//! Domain errors: why the decider refuses a command.

use vstd::prelude::*;
use crate::state::{GameId, PlayerId, Stage};

verus! {

/// Why a command was refused.
#[allow(inconsistent_fields)]
#[derive(Debug, Clone, Copy, PartialEq, Eq)]
pub enum TicTacTussleError {
    /// The command was sent to another game session.
    WrongGame {
        /// The game the command was meant for.
        expected: GameId,
        /// The game of this session.
        actual: GameId,
    },
    /// The action is not allowed in the current stage of the game.
    WrongStage {
        /// The stage the action needs.
        expected: Stage,
        /// The current stage of the game.
        actual: Stage,
    },
    /// The player is not in this game.
    UnknownPlayer(PlayerId),
    /// The player has already joined this game.
    AlreadyJoined(PlayerId),
    /// The tile index is outside 0..=8.
    TileOutOfRange(usize),
    /// The tile is already occupied.
    TileOccupied(usize),
    /// It is not this player's turn.
    NotYourTurn(PlayerId),
}

} // verus!
