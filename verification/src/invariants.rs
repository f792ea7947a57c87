//! What holds of every game that the decider drives.
//!
//! A game log is built by deciding each command against the state that the
//! log so far describes, and appending the events of the accepted commands.
//! Every state reached that way is `valid_state`: the lobby holds at most one
//! player on an empty board; a game in progress has two distinct players
//! who alternate, `X` first, on a board with no completed line and a free
//! cell; an ended game keeps its two players and the alternation count.

use vstd::prelude::*;
use crate::board::{board_full, board_winner, first_owner_from, lemma_first_owner_from, lemma_winner_is_three_in_a_row, line_k_owner, three_in_a_row, win_line};
use crate::commands::GameCommand;
use crate::decider::{event_applicable, evolve_all, log_applicable, spec_decide, spec_evolve, spec_hydrate, symbol_for};
use crate::events::{EndGameReason, GameEvent};
use crate::state::{initial_state, GameState, PlayerId, Stage, Symbol, Tile};

verus! {

/// The number of cells among the first `n` of `b` that hold symbol `s`.
pub open spec fn count_upto(b: Seq<Tile>, s: Symbol, n: int) -> int
    decreases n,
{
    if n <= 0 {
        0
    } else {
        count_upto(b, s, n - 1) + if b[n - 1] == Tile::Occupied(s) {
            1int
        } else {
            0int
        }
    }
}

/// The number of cells of the board that hold symbol `s`.
pub open spec fn count_symbol(b: Seq<Tile>, s: Symbol) -> int {
    count_upto(b, s, b.len() as int)
}

/// Every cell of the board is empty.
pub open spec fn board_empty(b: Seq<Tile>) -> bool {
    forall|i: int| 0 <= i < b.len() ==> b[i] == Tile::Empty
}

/// The two player slots hold two distinct players.
pub open spec fn two_players(s: GameState) -> bool {
    &&& s.players[0] != PlayerId(0)
    &&& s.players[1] != PlayerId(0)
    &&& s.players[0] != s.players[1]
}

/// `X` has made as many moves as `O`, or one more.
pub open spec fn counts_alternate(s: GameState) -> bool {
    let nx = count_symbol(s.board@, Symbol::X);
    let no = count_symbol(s.board@, Symbol::O);
    nx == no || nx == no + 1
}

/// The invariant of every state that the decider reaches.
pub open spec fn valid_state(s: GameState) -> bool {
    match s.stage {
        Stage::Lobby => s.players[1] == PlayerId(0) && board_empty(s.board@),
        Stage::InGame => {
            let nx = count_symbol(s.board@, Symbol::X);
            let no = count_symbol(s.board@, Symbol::O);
            &&& two_players(s)
            &&& (s.active_player_id == s.players[0] && nx == no) || (s.active_player_id == s.players[1]
                && nx == no + 1)
            &&& board_winner(s.board@) is None
            &&& !board_full(s.board@)
        },
        Stage::Ended => two_players(s) && counts_alternate(s),
    }
}

/// The log after one command: the command is decided against the state the
/// log describes; the events of an accepted command are appended, a refused
/// command adds nothing.
pub open spec fn step_log(log: Seq<GameEvent>, cmd: GameCommand) -> Seq<GameEvent> {
    match spec_decide(spec_hydrate(log), cmd) {
        Ok(evs) => log + evs,
        Err(_) => log,
    }
}

/// The event log that a sequence of commands produces from an empty log.
pub open spec fn run_commands(cmds: Seq<GameCommand>) -> Seq<GameEvent>
    decreases cmds.len(),
{
    if cmds.len() == 0 {
        Seq::empty()
    } else {
        step_log(run_commands(cmds.drop_last()), cmds.last())
    }
}

/// Replaying a log in two parts gives the state of the whole log.
pub proof fn lemma_evolve_all_append(s: GameState, a: Seq<GameEvent>, b: Seq<GameEvent>)
    ensures
        evolve_all(s, a + b) == evolve_all(evolve_all(s, a), b),
    decreases b.len(),
{
    if b.len() == 0 {
        assert(a + b =~= a);
    } else {
        lemma_evolve_all_append(s, a, b.drop_last());
        assert((a + b).drop_last() =~= a + b.drop_last());
        assert((a + b).last() == b.last());
    }
}

/// The state of a log followed by more events is the state of the log with
/// those events applied.
pub proof fn lemma_hydrate_append(a: Seq<GameEvent>, b: Seq<GameEvent>)
    ensures
        spec_hydrate(a + b) == evolve_all(spec_hydrate(a), b),
{
    lemma_evolve_all_append(initial_state(), a, b);
}

/// A log is applicable exactly when both of its parts are.
pub proof fn lemma_log_applicable_append(a: Seq<GameEvent>, b: Seq<GameEvent>)
    ensures
        log_applicable(a + b) <==> (log_applicable(a) && log_applicable(b)),
{
    if log_applicable(a) && log_applicable(b) {
        assert forall|i: int| 0 <= i < (a + b).len() implies #[trigger] event_applicable((a + b)[i]) by {
            if i < a.len() {
                assert(event_applicable(a[i]));
            } else {
                assert(event_applicable(b[i - a.len()]));
            }
        }
    }
    if log_applicable(a + b) {
        assert forall|i: int| 0 <= i < a.len() implies #[trigger] event_applicable(a[i]) by {
            assert(event_applicable((a + b)[i]));
        }
        assert forall|i: int| 0 <= i < b.len() implies #[trigger] event_applicable(b[i]) by {
            assert(event_applicable((a + b)[i + a.len()]));
        }
    }
}

/// Every event that the decider answers with can be applied.
pub proof fn lemma_decided_applicable(s: GameState, cmd: GameCommand)
    ensures
        spec_decide(s, cmd) matches Ok(evs) ==> log_applicable(evs),
{
}

/// Applying one event is `evolve`.
pub proof fn lemma_evolve_all_one(s: GameState, a: GameEvent)
    ensures
        evolve_all(s, seq![a]) == spec_evolve(s, a),
{
    assert(seq![a].drop_last() =~= Seq::<GameEvent>::empty());
    assert(evolve_all(s, Seq::<GameEvent>::empty()) == s);
}

/// Applying two events is `evolve` twice.
pub proof fn lemma_evolve_all_two(s: GameState, a: GameEvent, b: GameEvent)
    ensures
        evolve_all(s, seq![a, b]) == spec_evolve(spec_evolve(s, a), b),
{
    assert(seq![a, b].drop_last() =~= seq![a]);
    lemma_evolve_all_one(s, a);
}

proof fn lemma_count_update(b: Seq<Tile>, s: Symbol, n: int, i: int, t: Tile)
    requires
        0 <= i < n <= b.len(),
    ensures
        count_upto(b.update(i, t), s, n) == count_upto(b, s, n) - (if b[i] == Tile::Occupied(s) {
            1int
        } else {
            0int
        }) + (if t == Tile::Occupied(s) {
            1int
        } else {
            0int
        }),
    decreases n,
{
    if n - 1 > i {
        lemma_count_update(b, s, n - 1, i, t);
    } else {
        lemma_count_unchanged(b, b.update(i, t), s, n - 1);
    }
}

proof fn lemma_count_unchanged(b: Seq<Tile>, c: Seq<Tile>, s: Symbol, n: int)
    requires
        0 <= n <= b.len(),
        n <= c.len(),
        forall|j: int| 0 <= j < n ==> b[j] == c[j],
    ensures
        count_upto(b, s, n) == count_upto(c, s, n),
    decreases n,
{
    if n > 0 {
        lemma_count_unchanged(b, c, s, n - 1);
    }
}

proof fn lemma_count_empty(b: Seq<Tile>, s: Symbol, n: int)
    requires
        0 <= n <= b.len(),
        board_empty(b),
    ensures
        count_upto(b, s, n) == 0,
    decreases n,
{
    if n > 0 {
        lemma_count_empty(b, s, n - 1);
    }
}

proof fn lemma_empty_board_no_winner(b: Seq<Tile>, k: int)
    requires
        b.len() == 9,
        board_empty(b),
        0 <= k <= 8,
    ensures
        first_owner_from(b, k) is None,
    decreases 8 - k,
{
    if k < 8 {
        let (x, y, z) = win_line(k);
        assert(0 <= x < 9);
        assert(b[x] == Tile::Empty);
        assert(line_k_owner(b, k) is None);
        lemma_empty_board_no_winner(b, k + 1);
    }
}

/// The initial state is valid.
pub proof fn lemma_initial_valid()
    ensures
        valid_state(initial_state()),
{
    assert(board_empty(initial_state().board@));
}

/// A command accepted in a valid state leads to a valid state.
pub proof fn lemma_decide_keeps_valid(s: GameState, cmd: GameCommand)
    requires
        valid_state(s),
    ensures
        spec_decide(s, cmd) matches Ok(evs) ==> valid_state(evolve_all(s, evs)),
{
    let b = s.board@;
    match cmd {
        GameCommand::JoinGame { player_id, name } => {
            if spec_decide(s, cmd) is Ok {
                let join = GameEvent::PlayerJoined { player_id, name };
                let next = spec_evolve(s, join);
                lemma_evolve_all_one(s, join);
                if next.players[1] != PlayerId(0) {
                    let started = GameEvent::GameStarted { goes_first: next.players[0] };
                    lemma_evolve_all_two(s, join, started);
                    let t = spec_evolve(next, started);
                    assert(t.board@ == b);
                    lemma_count_empty(b, Symbol::X, 9);
                    lemma_count_empty(b, Symbol::O, 9);
                    lemma_empty_board_no_winner(b, 0);
                    assert(b[0] == Tile::Empty);
                }
            }
        },
        GameCommand::PlaceTile { player_id, at } => {
            if spec_decide(s, cmd) is Ok {
                let place = GameEvent::TilePlaced { player_id, at };
                let next = spec_evolve(s, place);
                let sym = if s.players[0] == player_id {
                    Symbol::X
                } else {
                    Symbol::O
                };
                assert(next.board@ == b.update(at as int, Tile::Occupied(sym)));
                lemma_count_update(b, Symbol::X, 9, at as int, Tile::Occupied(sym));
                lemma_count_update(b, Symbol::O, 9, at as int, Tile::Occupied(sym));
                lemma_evolve_all_one(s, place);
                if board_winner(next.board@) is Some {
                    lemma_evolve_all_two(s, place, GameEvent::GameEnded {
                        reason: EndGameReason::PlayerWon { winner: player_id },
                    });
                } else if board_full(next.board@) {
                    lemma_evolve_all_two(s, place, GameEvent::GameEnded {
                        reason: EndGameReason::Draw,
                    });
                }
            }
        },
        GameCommand::LeaveGame { player_id } => {
            let leave = GameEvent::PlayerLeft { player_id };
            lemma_evolve_all_one(s, leave);
            if s.stage == Stage::InGame {
                lemma_evolve_all_two(s, leave, GameEvent::GameEnded {
                    reason: EndGameReason::PlayerLeft { player_id },
                });
            }
        },
    }
}

/// One more command keeps a log replayable and its state valid.
pub proof fn lemma_step_keeps_valid(log: Seq<GameEvent>, cmd: GameCommand)
    requires
        log_applicable(log),
        valid_state(spec_hydrate(log)),
    ensures
        log_applicable(step_log(log, cmd)),
        valid_state(spec_hydrate(step_log(log, cmd))),
{
    let s = spec_hydrate(log);
    lemma_decide_keeps_valid(s, cmd);
    lemma_decided_applicable(s, cmd);
    if let Ok(evs) = spec_decide(s, cmd) {
        lemma_hydrate_append(log, evs);
        lemma_log_applicable_append(log, evs);
    }
}

/// The events that the decider answers a command with (none when it
/// refuses the command).
pub open spec fn decided_events(s: GameState, cmd: GameCommand) -> Seq<GameEvent> {
    match spec_decide(s, cmd) {
        Ok(evs) => evs,
        Err(_) => Seq::empty(),
    }
}

/// The command is accepted and its second event ends the game with a win.
pub open spec fn ends_in_win(s: GameState, cmd: GameCommand) -> bool {
    let evs = decided_events(s, cmd);
    &&& spec_decide(s, cmd) is Ok
    &&& evs.len() == 2
    &&& (evs[1] matches GameEvent::GameEnded { reason: EndGameReason::PlayerWon { .. } })
}

/// In a valid game, a move that ends the game with a win reports the mover
/// as winner, and the completed line holds the mover's symbol: no other
/// line can be complete, since none was before the move.
pub proof fn lemma_win_is_movers(s: GameState, player_id: PlayerId, at: usize)
    requires
        valid_state(s),
        ends_in_win(s, GameCommand::PlaceTile { player_id, at }),
    ensures
        decided_events(s, GameCommand::PlaceTile { player_id, at })[1] == (GameEvent::GameEnded {
            reason: EndGameReason::PlayerWon { winner: player_id },
        }),
        board_winner(evolve_all(s, decided_events(s, GameCommand::PlaceTile { player_id, at })).board@) == Some(
            symbol_for(s, player_id),
        ),
{
    let evs = spec_decide(s, GameCommand::PlaceTile { player_id, at })->Ok_0;
    let place = GameEvent::TilePlaced { player_id, at };
    let sym = symbol_for(s, player_id);
    let b = s.board@;
    let b2 = b.update(at as int, Tile::Occupied(sym));
    lemma_evolve_all_two(s, place, evs[1]);
    assert(evolve_all(s, evs).board@ == b2);
    lemma_first_owner_from(b, 0);
    lemma_first_owner_from(b2, 0);
    assert forall|k: int| 0 <= k < 8 && (#[trigger] line_k_owner(b2, k)) is Some implies line_k_owner(b2, k) == Some(sym) by {
        let (x, y, z) = win_line(k);
        assert(line_k_owner(b, k) is None);
        if x != at && y != at && z != at {
            assert(b2[x] == b[x] && b2[y] == b[y] && b2[z] == b[z]);
        }
    }
}

/// The board after `player_id` marks cell `at`: the first player's mark is
/// `X`, any other player's is `O`.
pub open spec fn board_after_move(s: GameState, player_id: PlayerId, at: usize) -> Seq<Tile> {
    s.board@.update(at as int, Tile::Occupied(if s.players[0] == player_id { Symbol::X } else { Symbol::O }))
}

/// A move is accepted exactly when the game is in progress, it is the
/// mover's turn, the cell lies on the board and the cell is empty.
pub proof fn lemma_move_accepted_iff(s: GameState, player_id: PlayerId, at: usize)
    ensures
        spec_decide(s, GameCommand::PlaceTile { player_id, at }) is Ok <==> (s.stage == Stage::InGame
            && s.active_player_id == player_id && at < 9 && s.board@[at as int] == Tile::Empty),
{
}

/// What an accepted move answers: the placed tile, then the end of the game
/// when the board after the move has three in a row (a win for the mover,
/// whether or not the board is also full) or is full without three in a
/// row (a draw); the game goes on otherwise.
pub proof fn lemma_move_outcome(s: GameState, player_id: PlayerId, at: usize)
    requires
        spec_decide(s, GameCommand::PlaceTile { player_id, at }) is Ok,
    ensures
        ({
            let b = board_after_move(s, player_id, at);
            let evs = decided_events(s, GameCommand::PlaceTile { player_id, at });
            let place = GameEvent::TilePlaced { player_id, at };
            let won = three_in_a_row(b, Symbol::X) || three_in_a_row(b, Symbol::O);
            let full = forall|i: int| 0 <= i < 9 ==> b[i] != Tile::Empty;
            &&& won ==> evs == seq![place, GameEvent::GameEnded { reason: EndGameReason::PlayerWon { winner: player_id } }]
            &&& !won && full ==> evs == seq![place, GameEvent::GameEnded { reason: EndGameReason::Draw }]
            &&& !won && !full ==> evs == seq![place]
        }),
{
    let place = GameEvent::TilePlaced { player_id, at };
    let next = spec_evolve(s, place);
    let b = board_after_move(s, player_id, at);
    assert(next.board@ == b);
    lemma_winner_is_three_in_a_row(b);
}

/// A join is accepted exactly in the lobby from a player not yet in either
/// slot. It fills the first free slot (a slot holding `PlayerId(0)` is
/// free); when both slots are then taken, the game starts at once, with the
/// player in the first slot to move.
pub proof fn lemma_join_outcome(s: GameState, player_id: PlayerId, name: String)
    ensures
        spec_decide(s, GameCommand::JoinGame { player_id, name }) is Ok <==> (s.stage == Stage::Lobby
            && s.players[0] != player_id && s.players[1] != player_id),
        spec_decide(s, GameCommand::JoinGame { player_id, name }) is Ok && s.players[0] != PlayerId(0)
            && player_id != PlayerId(0) ==> decided_events(s, GameCommand::JoinGame { player_id, name }) == seq![
            GameEvent::PlayerJoined { player_id, name },
            GameEvent::GameStarted { goes_first: s.players[0] },
        ],
        spec_decide(s, GameCommand::JoinGame { player_id, name }) is Ok && s.players[0] == PlayerId(0)
            && s.players[1] == PlayerId(0) ==> decided_events(s, GameCommand::JoinGame { player_id, name })
            == seq![GameEvent::PlayerJoined { player_id, name }],
        spec_decide(s, GameCommand::JoinGame { player_id, name }) is Ok && s.players[0] == PlayerId(0)
            && s.players[1] != PlayerId(0) ==> decided_events(s, GameCommand::JoinGame { player_id, name })
            == seq![
            GameEvent::PlayerJoined { player_id, name },
            GameEvent::GameStarted { goes_first: player_id },
        ],
        spec_decide(s, GameCommand::JoinGame { player_id, name }) is Ok && s.players[0] != PlayerId(0)
            && player_id == PlayerId(0) ==> decided_events(s, GameCommand::JoinGame { player_id, name })
            == seq![GameEvent::PlayerJoined { player_id, name }],
{
}

/// Leaving is always accepted: the player leaves, and a game in progress
/// ends with the leaver named; in any other stage nothing else happens.
pub proof fn lemma_leave_outcome(s: GameState, player_id: PlayerId)
    ensures
        spec_decide(s, GameCommand::LeaveGame { player_id }) is Ok,
        s.stage == Stage::InGame ==> decided_events(s, GameCommand::LeaveGame { player_id }) == seq![
            GameEvent::PlayerLeft { player_id },
            GameEvent::GameEnded { reason: EndGameReason::PlayerLeft { player_id } },
        ],
        s.stage != Stage::InGame ==> decided_events(s, GameCommand::LeaveGame { player_id }) == seq![
            GameEvent::PlayerLeft { player_id },
        ],
{
}

/// What each event does to a state: a join takes the first free slot, a
/// start begins the game with the given player to move, a placed tile puts
/// the mover's mark (`X` for the first slot, `O` otherwise) in its cell and
/// hands the turn to the other slot, a leave changes nothing, an end ends
/// the game; nothing else changes.
pub proof fn lemma_evolve_effects(s: GameState, e: GameEvent)
    ensures
        ({
            let t = spec_evolve(s, e);
            match e {
                GameEvent::PlayerJoined { player_id, .. } => t.stage == s.stage && t.board == s.board
                    && t.active_player_id == s.active_player_id && (if s.players[0] == PlayerId(0) {
                    t.players[0] == player_id && t.players[1] == s.players[1]
                } else {
                    t.players[0] == s.players[0] && t.players[1] == player_id
                }),
                GameEvent::GameStarted { goes_first } => t.stage == Stage::InGame && t.active_player_id
                    == goes_first && t.board == s.board && t.players == s.players,
                GameEvent::TilePlaced { player_id, at } => at < 9 ==> (t.stage == s.stage && t.players
                    == s.players && t.board@ == board_after_move(s, player_id, at) && t.active_player_id
                    == (if s.players[0] == player_id {
                    s.players[1]
                } else {
                    s.players[0]
                })),
                GameEvent::PlayerLeft { .. } => t == s,
                GameEvent::GameEnded { .. } => t.stage == Stage::Ended && t.board == s.board && t.players
                    == s.players && t.active_player_id == s.active_player_id,
            }
        }),
{
}

/// Replaying a log and then one more event is that event applied to the
/// replayed state; the empty log replays to the initial state.
pub proof fn lemma_hydrate_steps(log: Seq<GameEvent>, e: GameEvent)
    ensures
        spec_hydrate(Seq::<GameEvent>::empty()) == initial_state(),
        spec_hydrate(log.push(e)) == spec_evolve(spec_hydrate(log), e),
{
    assert(log.push(e).drop_last() =~= log);
}

/// Every log that commands produce can be replayed, and describes a valid
/// state.
pub proof fn lemma_run_commands_valid(cmds: Seq<GameCommand>)
    ensures
        log_applicable(run_commands(cmds)),
        valid_state(spec_hydrate(run_commands(cmds))),
    decreases cmds.len(),
{
    if cmds.len() == 0 {
        lemma_initial_valid();
    } else {
        lemma_run_commands_valid(cmds.drop_last());
        lemma_step_keeps_valid(run_commands(cmds.drop_last()), cmds.last());
    }
}

} // verus!
