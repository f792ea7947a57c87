//! Commands: what a player asks the game to do.

use vstd::prelude::*;
use crate::ext::{random_uuid, utc_now};
use crate::state::{GameId, PlayerId, Timestamp};

verus! {

/// The actions a player can take in the game.
#[derive(Debug, PartialEq)]
pub enum GameCommand {
    /// A player wants to join a game.
    JoinGame {
        /// The unique ID of the player joining.
        player_id: PlayerId,
        /// The name the player wants to use.
        name: String,
    },
    /// A player wants to place a tile on the board.
    PlaceTile {
        /// The ID of the player making the move.
        player_id: PlayerId,
        /// The index on the board (0-8) where the tile should be placed.
        at: usize,
    },
    /// A player wants to leave the game.
    LeaveGame {
        /// The ID of the player leaving.
        player_id: PlayerId,
    },
}

/// A `GameCommand` with the metadata used for tracking and auditing.
#[derive(Debug)]
pub struct CommandEnvelope {
    /// A unique identifier for this command instance.
    pub id: uuid::Uuid,
    /// The game this command is meant for.
    pub game_id: GameId,
    /// When the command was created.
    pub occurred_at: Timestamp,
    /// The command itself.
    pub command: GameCommand,
}

impl Clone for GameCommand {
    fn clone(&self) -> (r: Self)
        ensures
            r == *self,
    {
        match self {
            GameCommand::JoinGame { player_id, name } => GameCommand::JoinGame {
                player_id: *player_id,
                name: name.clone(),
            },
            GameCommand::PlaceTile { player_id, at } => GameCommand::PlaceTile { player_id: *player_id, at: *at },
            GameCommand::LeaveGame { player_id } => GameCommand::LeaveGame { player_id: *player_id },
        }
    }
}

impl Clone for CommandEnvelope {
    fn clone(&self) -> (r: Self)
        ensures
            r == *self,
    {
        CommandEnvelope {
            id: self.id,
            game_id: self.game_id,
            occurred_at: self.occurred_at,
            command: self.command.clone(),
        }
    }
}

impl CommandEnvelope {
    /// Creates a new `CommandEnvelope` with a fresh UUID and the current time.
    pub fn new(game_id: GameId, command: GameCommand) -> (r: Self)
        ensures
            r.game_id == game_id,
            r.command == command,
            r.occurred_at.nanos < 1_000_000_000,
    {
        CommandEnvelope { id: random_uuid(), game_id, occurred_at: utc_now(), command }
    }
}

} // verus!
