//! Write-model game state and the identifiers it is built from.
//!
//! The board layout is row-major:
//! ```text
//!  0 | 1 | 2
//! -----------
//!  3 | 4 | 5
//! -----------
//!  6 | 7 | 8
//! ```

use vstd::prelude::*;
use crate::ext::random_uuid;

verus! {

/// A unique identifier for a player (an opaque `u64`, the network client id).
/// `PlayerId(0)` marks an empty player slot.
#[derive(Debug, Clone, Copy, PartialEq, Eq, Structural, Hash, Default)]
pub struct PlayerId(pub u64);

/// A unique identifier for a specific game session (a random UUID).
#[derive(Debug, Clone, Copy, PartialEq, Eq, Hash)]
pub struct GameId(pub uuid::Uuid);

impl GameId {
    /// Creates a new, randomly generated `GameId`.
    pub fn new() -> Self {
        GameId(random_uuid())
    }
}

impl Default for GameId {
    /// A fresh random id, as `GameId::new`.
    fn default() -> Self {
        GameId::new()
    }
}

/// A UTC instant: whole seconds since the Unix epoch and the nanoseconds
/// past that second (the two numbers that `chrono` keeps of a `DateTime<Utc>`).
#[derive(Debug, Clone, Copy, PartialEq, Eq, Structural)]
pub struct Timestamp {
    /// Seconds since 1970-01-01T00:00:00Z.
    pub secs: i64,
    /// Nanoseconds past `secs`.
    pub nanos: u32,
}

/// The two symbols of tic-tac-toe.
#[derive(Debug, Clone, Copy, PartialEq, Eq, Structural)]
pub enum Symbol {
    /// The symbol of the first player who joins.
    X,
    /// The symbol of the second player who joins.
    O,
}

/// One cell of the board.
#[derive(Debug, Clone, Copy, PartialEq, Eq, Structural, Default)]
pub enum Tile {
    /// Not played yet.
    #[default]
    Empty,
    /// Marked by the player holding this symbol.
    Occupied(Symbol),
}

/// The lifecycle stages of a game session.
#[derive(Debug, Clone, Copy, PartialEq, Eq, Structural, Hash, Default)]
pub enum Stage {
    /// Waiting for players to join.
    #[default]
    Lobby,
    /// The game is in progress.
    InGame,
    /// The game has finished (win, draw, or a player left).
    Ended,
}

/// The two players of a game with their names: the first to join holds `X`,
/// the second holds `O`.
#[derive(Debug, PartialEq, Eq)]
pub struct PlayerPair {
    /// The first player to join, always `X`.
    pub x: (PlayerId, String),
    /// The second player to join, always `O`.
    pub o: (PlayerId, String),
}

impl Clone for PlayerPair {
    fn clone(&self) -> (r: Self)
        ensures
            r == *self,
    {
        PlayerPair { x: (self.x.0, self.x.1.clone()), o: (self.o.0, self.o.1.clone()) }
    }
}

impl PlayerPair {
    /// Creates a new pair of players.
    pub fn new(x: PlayerId, x_name: String, o: PlayerId, o_name: String) -> (r: Self)
        ensures
            r.x.0 == x,
            r.x.1 == x_name,
            r.o.0 == o,
            r.o.1 == o_name,
    {
        PlayerPair { x: (x, x_name), o: (o, o_name) }
    }

    /// The opponent of `id`: `o` when `id` is `x`, otherwise `x`.
    pub open spec fn spec_opponent_of(self, id: PlayerId) -> PlayerId {
        if self.x.0 == id {
            self.o.0
        } else {
            self.x.0
        }
    }

    /// The symbol of `id`: `X` when `id` is `x`, otherwise `O`.
    pub open spec fn spec_symbol_of(self, id: PlayerId) -> Symbol {
        if self.x.0 == id {
            Symbol::X
        } else {
            Symbol::O
        }
    }

    /// Returns the ID of the opponent of the given player.
    pub fn opponent_of(&self, id: PlayerId) -> (r: PlayerId)
        ensures
            r == self.spec_opponent_of(id),
    {
        if self.x.0 == id {
            self.o.0
        } else {
            self.x.0
        }
    }

    /// Returns the symbol assigned to the given player.
    pub fn symbol_of(&self, id: PlayerId) -> (r: Symbol)
        ensures
            r == self.spec_symbol_of(id),
    {
        if self.x.0 == id {
            Symbol::X
        } else {
            Symbol::O
        }
    }

    /// In a pair of two distinct players, `x` holds `X` and `o` holds `O`,
    /// each is the other's opponent, and the opponent of a player's
    /// opponent is that player.
    pub proof fn lemma_roles(self)
        requires
            self.x.0 != self.o.0,
        ensures
            self.spec_symbol_of(self.x.0) == Symbol::X,
            self.spec_symbol_of(self.o.0) == Symbol::O,
            self.spec_opponent_of(self.x.0) == self.o.0,
            self.spec_opponent_of(self.o.0) == self.x.0,
            forall|p: PlayerId|
                (p == self.x.0 || p == self.o.0) ==> #[trigger] self.spec_opponent_of(self.spec_opponent_of(p)) == p,
    {
    }

    /// Returns the name of the given player, if they are part of this pair.
    pub fn name_of(&self, id: PlayerId) -> (r: Option<&str>)
        ensures
            self.x.0 == id ==> (r matches Some(n) && n@ == self.x.1@),
            self.x.0 != id && self.o.0 == id ==> (r matches Some(n) && n@ == self.o.1@),
            self.x.0 != id && self.o.0 != id ==> r is None,
    {
        if self.x.0 == id {
            Some(self.x.1.as_str())
        } else if self.o.0 == id {
            Some(self.o.1.as_str())
        } else {
            None
        }
    }
}

/// The state of a game: everything needed to judge the next command.
#[derive(Debug, Clone, Copy)]
pub struct GameState {
    /// The current stage of the game's lifecycle.
    pub stage: Stage,
    /// The 3x3 board as a flat row-major array of 9 tiles.
    pub board: [Tile; 9],
    /// The player whose turn it is (`PlayerId(0)` before the game starts).
    pub active_player_id: PlayerId,
    /// The players of the game: `players[0]` holds `X`, `players[1]` holds `O`;
    /// `PlayerId(0)` marks a slot not yet taken.
    pub players: [PlayerId; 2],
}

/// The state of a game before any event: in the lobby, an empty board,
/// no active player and both player slots free.
pub open spec fn initial_state() -> GameState {
    GameState {
        stage: Stage::Lobby,
        board: [Tile::Empty, Tile::Empty, Tile::Empty, Tile::Empty, Tile::Empty, Tile::Empty, Tile::Empty, Tile::Empty, Tile::Empty],
        active_player_id: PlayerId(0),
        players: [PlayerId(0), PlayerId(0)],
    }
}

impl Default for GameState {
    fn default() -> (r: Self)
        ensures
            r == initial_state(),
    {
        GameState {
            stage: Stage::Lobby,
            board: [Tile::Empty, Tile::Empty, Tile::Empty, Tile::Empty, Tile::Empty, Tile::Empty, Tile::Empty, Tile::Empty, Tile::Empty],
            active_player_id: PlayerId(0),
            players: [PlayerId(0), PlayerId(0)],
        }
    }
}

} // verus!
