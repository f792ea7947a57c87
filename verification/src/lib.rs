//! Tic-Tac-Tussle store: the domain core of an online tic-tac-toe game.
//!
//! The game is event sourced: commands are checked against the current
//! state by the decider, which answers with events; the state of a game is
//! the left fold of `evolve` over its event log. The service appends the
//! accepted events to the game's store and hands them to the ports (a
//! message broker and the network); the client module holds the rules of
//! the game client, and `user_data` the format that carries a player's name.

pub mod ext;
pub mod board;
pub mod broker;
pub mod client;
pub mod commands;
pub mod decider;
pub mod errors;
pub mod events;
pub mod invariants;
pub mod ports;
pub mod service;
pub mod simulation;
pub mod state;
pub mod store;
pub mod user_data;

pub use errors::TicTacTussleError;

pub use commands::{CommandEnvelope, GameCommand};

pub use state::{GameId, GameState, PlayerId, PlayerPair, Stage, Symbol, Tile, Timestamp};

pub use events::{EndGameReason, GameEvent, GameEventEnvelope};

pub use board::{is_full, winning_symbol};

pub use decider::GameDecider;

pub use simulation::SimulationHarness;

pub use ports::{EventPublisher, NetworkBroadcaster, NoopBroadcaster, NoopPublisher};

pub use service::{acknowledges, Builder, GameService, ServiceError};
