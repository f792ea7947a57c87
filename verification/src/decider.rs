//! The decider: the pure functional core of the game.
//!
//! - `decide(state, cmd)` checks a command against the current state and
//!   answers with the events it causes, or with the reason it is refused.
//! - `evolve(state, event)` applies one event to a state.
//! - `hydrate(events)` rebuilds a state from its event log: the left fold of
//!   `evolve` from the initial state.
//!
//! All domain rules live here and only here.

use vstd::prelude::*;
use crate::board::{board_full, board_winner, is_full, winning_symbol};
use crate::commands::GameCommand;
use crate::errors::TicTacTussleError;
use crate::events::{EndGameReason, GameEvent};
use crate::state::{initial_state, GameState, PlayerId, Stage, Symbol, Tile};

verus! {

/// An event that `evolve` can apply: a placed tile lies on the board.
pub open spec fn event_applicable(e: GameEvent) -> bool {
    e matches GameEvent::TilePlaced { at, .. } ==> at < 9
}

/// Every event of the log can be applied.
pub open spec fn log_applicable(log: Seq<GameEvent>) -> bool {
    forall|i: int| 0 <= i < log.len() ==> #[trigger] event_applicable(log[i])
}

/// The symbol that a tile placed by `player` gets: `X` for the first slot,
/// `O` otherwise.
pub open spec fn symbol_for(s: GameState, player: PlayerId) -> Symbol {
    if s.players[0] == player {
        Symbol::X
    } else {
        Symbol::O
    }
}

/// The state after one event.
pub open spec fn spec_evolve(s: GameState, e: GameEvent) -> GameState {
    match e {
        GameEvent::PlayerJoined { player_id, .. } => if s.players[0] == PlayerId(0) {
            GameState { players: [player_id, s.players[1]], ..s }
        } else {
            GameState { players: [s.players[0], player_id], ..s }
        },
        GameEvent::GameStarted { goes_first } => GameState {
            stage: Stage::InGame,
            active_player_id: goes_first,
            ..s
        },
        GameEvent::TilePlaced { player_id, at } => GameState {
            board: vstd::array::spec_array_update(s.board, at as int, Tile::Occupied(symbol_for(s, player_id))),
            active_player_id: if s.players[0] == player_id {
                s.players[1]
            } else {
                s.players[0]
            },
            ..s
        },
        GameEvent::PlayerLeft { .. } => s,
        GameEvent::GameEnded { .. } => GameState { stage: Stage::Ended, ..s },
    }
}

/// The state after applying `events` in order, starting from `s`.
pub open spec fn evolve_all(s: GameState, events: Seq<GameEvent>) -> GameState
    decreases events.len(),
{
    if events.len() == 0 {
        s
    } else {
        spec_evolve(evolve_all(s, events.drop_last()), events.last())
    }
}

/// The state that an event log describes.
pub open spec fn spec_hydrate(events: Seq<GameEvent>) -> GameState {
    evolve_all(initial_state(), events)
}

/// The answer to a command that needs the game to be in stage `expected`.
pub open spec fn stage_error(s: GameState, expected: Stage) -> TicTacTussleError {
    TicTacTussleError::WrongStage { expected, actual: s.stage }
}

/// What `decide` answers: the events a command causes, or why it is refused.
///
/// - Joining needs the lobby and a player not yet in the game; the join is
///   followed by `GameStarted` (first player to move: the `X` player) when it
///   fills the second slot.
/// - Placing a tile needs a game in progress, the player whose turn it is, an
///   index on the board and an empty cell; it is followed by `GameEnded`
///   with the mover as winner when the move completes a line, or with a draw
///   when it fills the board.
/// - Leaving is always accepted; it ends a game in progress.
pub open spec fn spec_decide(s: GameState, cmd: GameCommand) -> Result<Seq<GameEvent>, TicTacTussleError> {
    match cmd {
        GameCommand::JoinGame { player_id, name } => {
            if s.stage != Stage::Lobby {
                Err(stage_error(s, Stage::Lobby))
            } else if s.players[0] == player_id || s.players[1] == player_id {
                Err(TicTacTussleError::AlreadyJoined(player_id))
            } else {
                let join = GameEvent::PlayerJoined { player_id, name };
                let next = spec_evolve(s, join);
                if next.players[1] != PlayerId(0) {
                    Ok(seq![join, GameEvent::GameStarted { goes_first: next.players[0] }])
                } else {
                    Ok(seq![join])
                }
            }
        },
        GameCommand::PlaceTile { player_id, at } => {
            if s.stage != Stage::InGame {
                Err(stage_error(s, Stage::InGame))
            } else if s.active_player_id != player_id {
                Err(TicTacTussleError::NotYourTurn(player_id))
            } else if at > 8 {
                Err(TicTacTussleError::TileOutOfRange(at))
            } else if s.board[at as int] != Tile::Empty {
                Err(TicTacTussleError::TileOccupied(at))
            } else {
                let place = GameEvent::TilePlaced { player_id, at };
                let next = spec_evolve(s, place);
                if board_winner(next.board@) is Some {
                    Ok(seq![place, GameEvent::GameEnded { reason: EndGameReason::PlayerWon { winner: player_id } }])
                } else if board_full(next.board@) {
                    Ok(seq![place, GameEvent::GameEnded { reason: EndGameReason::Draw }])
                } else {
                    Ok(seq![place])
                }
            }
        },
        GameCommand::LeaveGame { player_id } => {
            let leave = GameEvent::PlayerLeft { player_id };
            if s.stage == Stage::InGame {
                Ok(seq![leave, GameEvent::GameEnded { reason: EndGameReason::PlayerLeft { player_id } }])
            } else {
                Ok(seq![leave])
            }
        },
    }
}

/// The answer of `decide` seen as a sequence of events.
pub open spec fn decision_view(r: Result<Vec<GameEvent>, TicTacTussleError>) -> Result<Seq<GameEvent>, TicTacTussleError> {
    match r {
        Ok(v) => Ok(v@),
        Err(e) => Err(e),
    }
}

/// The central component for game logic.
pub struct GameDecider;

impl GameDecider {
    /// Decides which events a command causes in the given state, or why it
    /// is refused.
    pub fn decide(state: &GameState, cmd: &GameCommand) -> (r: Result<Vec<GameEvent>, TicTacTussleError>)
        ensures
            decision_view(r) == spec_decide(*state, *cmd),
    {
        match cmd {
            GameCommand::JoinGame { player_id, name } => {
                Self::require_stage(state, Stage::Lobby)?;
                if state.players[0] == *player_id || state.players[1] == *player_id {
                    return Err(TicTacTussleError::AlreadyJoined(*player_id));
                }
                let join = GameEvent::PlayerJoined { player_id: *player_id, name: name.clone() };
                // Evolve ahead of time to see whether both slots are now taken.
                let next = Self::evolve(state, &join);
                if next.players[1] != PlayerId(0) {
                    let mut ev = Vec::new();
                    ev.push(join);
                    ev.push(GameEvent::GameStarted { goes_first: next.players[0] });
                    assert(ev@ =~= seq![join, GameEvent::GameStarted { goes_first: next.players[0] }]);
                    Ok(ev)
                } else {
                    let mut ev = Vec::new();
                    ev.push(join);
                    assert(ev@ =~= seq![join]);
                    Ok(ev)
                }
            },
            GameCommand::PlaceTile { player_id, at } => {
                Self::require_stage(state, Stage::InGame)?;
                if state.active_player_id != *player_id {
                    return Err(TicTacTussleError::NotYourTurn(*player_id));
                }
                if *at > 8 {
                    return Err(TicTacTussleError::TileOutOfRange(*at));
                }
                if state.board[*at] != Tile::Empty {
                    return Err(TicTacTussleError::TileOccupied(*at));
                }
                let place = GameEvent::TilePlaced { player_id: *player_id, at: *at };
                // Evolve ahead of time to judge the resulting board.
                let next = Self::evolve(state, &place);
                let mut ev = Vec::new();
                ev.push(place);
                if winning_symbol(&next.board).is_some() {
                    ev.push(GameEvent::GameEnded { reason: EndGameReason::PlayerWon { winner: *player_id } });
                    assert(ev@ =~= seq![place, GameEvent::GameEnded { reason: EndGameReason::PlayerWon { winner: *player_id } }]);
                } else if is_full(&next.board) {
                    ev.push(GameEvent::GameEnded { reason: EndGameReason::Draw });
                    assert(ev@ =~= seq![place, GameEvent::GameEnded { reason: EndGameReason::Draw }]);
                } else {
                    assert(ev@ =~= seq![place]);
                }
                Ok(ev)
            },
            GameCommand::LeaveGame { player_id } => {
                let leave = GameEvent::PlayerLeft { player_id: *player_id };
                let mut ev = Vec::new();
                ev.push(leave);
                if state.stage == Stage::InGame {
                    ev.push(GameEvent::GameEnded { reason: EndGameReason::PlayerLeft { player_id: *player_id } });
                    assert(ev@ =~= seq![leave, GameEvent::GameEnded { reason: EndGameReason::PlayerLeft { player_id: *player_id } }]);
                } else {
                    assert(ev@ =~= seq![leave]);
                }
                Ok(ev)
            },
        }
    }

    /// Applies an event to a state to produce the next state.
    pub fn evolve(state: &GameState, event: &GameEvent) -> (r: GameState)
        requires
            event_applicable(*event),
        ensures
            r == spec_evolve(*state, *event),
    {
        let mut next = *state;
        match event {
            GameEvent::PlayerJoined { player_id, .. } => {
                // The first free slot takes the player (`PlayerId(0)` marks a free slot).
                if next.players[0] == PlayerId(0) {
                    next.players[0] = *player_id;
                } else {
                    next.players[1] = *player_id;
                }
            },
            GameEvent::GameStarted { goes_first } => {
                next.stage = Stage::InGame;
                next.active_player_id = *goes_first;
            },
            GameEvent::TilePlaced { player_id, at } => {
                let symbol = if next.players[0] == *player_id {
                    Symbol::X
                } else {
                    Symbol::O
                };
                next.board[*at] = Tile::Occupied(symbol);
                next.active_player_id = if next.players[0] == *player_id {
                    next.players[1]
                } else {
                    next.players[0]
                };
            },
            GameEvent::PlayerLeft { .. } => {},
            GameEvent::GameEnded { .. } => {
                next.stage = Stage::Ended;
            },
        }
        proof {
            assert(next.players =~= spec_evolve(*state, *event).players);
            assert(next.board =~= spec_evolve(*state, *event).board);
        }
        next
    }

    /// Rebuilds a `GameState` from its event log.
    pub fn hydrate(events: &[GameEvent]) -> (r: GameState)
        requires
            log_applicable(events@),
        ensures
            r == spec_hydrate(events@),
    {
        Self::evolve_from(GameState::default(), events)
    }

    /// Applies `events` in order to `state`.
    pub(crate) fn evolve_from(state: GameState, events: &[GameEvent]) -> (r: GameState)
        requires
            log_applicable(events@),
        ensures
            r == evolve_all(state, events@),
    {
        let mut s = state;
        let mut i: usize = 0;
        while i < events.len()
            invariant
                i <= events@.len(),
                log_applicable(events@),
                s == evolve_all(state, events@.take(i as int)),
            decreases events@.len() - i,
        {
            assert(event_applicable(events@[i as int]));
            s = Self::evolve(&s, &events[i]);
            assert(events@.take(i + 1).drop_last() =~= events@.take(i as int));
            i = i + 1;
        }
        assert(events@.take(i as int) =~= events@);
        s
    }

    /// Checks that the game is in the expected stage.
    fn require_stage(state: &GameState, expected: Stage) -> (r: Result<(), TicTacTussleError>)
        ensures
            state.stage == expected ==> r is Ok,
            state.stage != expected ==> r == Err::<(), TicTacTussleError>(stage_error(*state, expected)),
    {
        if state.stage != expected {
            return Err(TicTacTussleError::WrongStage { expected, actual: state.stage });
        }
        Ok(())
    }
}

} // verus!
