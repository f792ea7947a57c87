//! Events: the facts that a game's history is made of.

use vstd::prelude::*;
use crate::ext::{random_uuid, utc_now};
use crate::state::{GameId, PlayerId, Timestamp};

verus! {

/// Why a game session ended.
#[derive(Debug, Clone, Copy, PartialEq, Eq, Structural)]
pub enum EndGameReason {
    /// A player won the game.
    PlayerWon {
        /// The winning player.
        winner: PlayerId,
    },
    /// The board is full and nobody won.
    Draw,
    /// A player left while the game was in progress.
    PlayerLeft {
        /// The player who left.
        player_id: PlayerId,
    },
}

/// What can happen during a game session.
#[derive(Debug, PartialEq)]
pub enum GameEvent {
    /// A player has joined the game.
    PlayerJoined {
        /// The player who joined.
        player_id: PlayerId,
        /// The name the player used.
        name: String,
    },
    /// The game has started.
    GameStarted {
        /// The player who makes the first move.
        goes_first: PlayerId,
    },
    /// A tile was placed on the board.
    TilePlaced {
        /// The player who placed the tile.
        player_id: PlayerId,
        /// The board index (0-8) of the tile.
        at: usize,
    },
    /// A player has left the game.
    PlayerLeft {
        /// The player who left.
        player_id: PlayerId,
    },
    /// The game has ended.
    GameEnded {
        /// Why the game ended.
        reason: EndGameReason,
    },
}

impl Clone for GameEvent {
    fn clone(&self) -> (r: Self)
        ensures
            r == *self,
    {
        match self {
            GameEvent::PlayerJoined { player_id, name } => GameEvent::PlayerJoined {
                player_id: *player_id,
                name: name.clone(),
            },
            GameEvent::GameStarted { goes_first } => GameEvent::GameStarted { goes_first: *goes_first },
            GameEvent::TilePlaced { player_id, at } => GameEvent::TilePlaced { player_id: *player_id, at: *at },
            GameEvent::PlayerLeft { player_id } => GameEvent::PlayerLeft { player_id: *player_id },
            GameEvent::GameEnded { reason } => GameEvent::GameEnded { reason: *reason },
        }
    }
}

/// A `GameEvent` with the metadata used for persistence and ordering.
#[derive(Debug)]
pub struct GameEventEnvelope {
    /// A unique identifier for this event.
    pub id: uuid::Uuid,
    /// The command that caused this event, if any.
    pub command_id: Option<uuid::Uuid>,
    /// The position of the event in its game's log, counting from 0.
    pub sequence: u64,
    /// The game this event belongs to.
    pub game_id: GameId,
    /// When the event occurred.
    pub occurred_at: Timestamp,
    /// The event itself.
    pub event: GameEvent,
}

impl Clone for GameEventEnvelope {
    fn clone(&self) -> (r: Self)
        ensures
            r == *self,
    {
        GameEventEnvelope {
            id: self.id,
            command_id: self.command_id,
            sequence: self.sequence,
            game_id: self.game_id,
            occurred_at: self.occurred_at,
            event: self.event.clone(),
        }
    }
}

impl GameEventEnvelope {
    /// Creates a new `GameEventEnvelope` with a fresh UUID and the current time.
    pub fn new(game_id: GameId, sequence: u64, event: GameEvent, command_id: Option<uuid::Uuid>) -> (r: Self)
        ensures
            r.game_id == game_id,
            r.sequence == sequence,
            r.event == event,
            r.command_id == command_id,
            r.occurred_at.nanos < 1_000_000_000,
    {
        GameEventEnvelope {
            id: random_uuid(),
            command_id,
            sequence,
            game_id,
            occurred_at: utc_now(),
            event,
        }
    }
}

} // verus!
