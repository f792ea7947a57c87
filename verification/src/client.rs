//! The rules of the game client: which click becomes a move, the player
//! pair it shows, and the status line it prints after each event.
//!
//! The client never applies its own moves: it sends commands to the server
//! and follows the events that the server broadcasts.

use vstd::prelude::*;
use crate::commands::GameCommand;
use crate::events::{EndGameReason, GameEvent};
use crate::decider::{evolve_all, spec_decide, spec_evolve, spec_hydrate, symbol_for};
use crate::invariants::{lemma_evolve_all_one, lemma_evolve_all_two, lemma_hydrate_append, lemma_run_commands_valid, run_commands, step_log, valid_state};
use crate::state::{GameState, PlayerId, PlayerPair, Stage, Tile};

verus! {

/// The board cell in column `col` and row `row`, when both lie in `0..3`.
pub fn cell_at(col: isize, row: isize) -> (r: Option<usize>)
    ensures
        (0 <= col < 3 && 0 <= row < 3) ==> r == Some((row * 3 + col) as usize),
        !(0 <= col < 3 && 0 <= row < 3) ==> r is None,
{
    if 0 <= col && col < 3 && 0 <= row && row < 3 {
        Some((row * 3 + col) as usize)
    } else {
        None
    }
}

/// It is the turn of the local player `me`: a game is in progress and `me`
/// is known and is the active player.
pub open spec fn spec_turn_of(state: GameState, me: Option<PlayerId>) -> bool {
    state.stage == Stage::InGame && me == Some(state.active_player_id)
}

impl GameState {
    /// Whether it is the local player's turn (`None`: not connected yet).
    pub fn is_turn_of(&self, me: Option<PlayerId>) -> (r: bool)
        ensures
            r == spec_turn_of(*self, me),
            r <==> (self.stage == Stage::InGame && me == Some(self.active_player_id)),
            r ==> self.stage == Stage::InGame,
            self.stage != Stage::InGame ==> !r,
    {
        match me {
            Some(id) => self.stage == Stage::InGame && self.active_player_id == id,
            None => false,
        }
    }

    /// The command that a click on cell `at` sends: a move of the local
    /// player, when it is their turn and the cell is empty.
    pub fn move_command(&self, me: Option<PlayerId>, at: usize) -> (r: Option<GameCommand>)
        requires
            at < 9,
        ensures
            (spec_turn_of(*self, me) && self.board[at as int] == Tile::Empty) ==> r == Some(
                GameCommand::PlaceTile { player_id: me.unwrap(), at },
            ),
            !(spec_turn_of(*self, me) && self.board[at as int] == Tile::Empty) ==> r is None,
            self.stage != Stage::InGame ==> r is None,
            me != Some(self.active_player_id) ==> r is None,
            self.board[at as int] != Tile::Empty ==> r is None,
            (self.stage == Stage::InGame && me == Some(self.active_player_id) && self.board[at as int]
                == Tile::Empty) ==> r == Some(GameCommand::PlaceTile { player_id: self.active_player_id, at }),
    {
        if !self.is_turn_of(me) {
            return None;
        }
        if self.board[at] != Tile::Empty {
            return None;
        }
        match me {
            Some(id) => Some(GameCommand::PlaceTile { player_id: id, at }),
            None => None,
        }
    }
}

/// The players who joined, in the order of their `PlayerJoined` events.
pub open spec fn joins_of(events: Seq<GameEvent>) -> Seq<PlayerId>
    decreases events.len(),
{
    if events.len() == 0 {
        Seq::empty()
    } else {
        let rest = joins_of(events.drop_last());
        match events.last() {
            GameEvent::PlayerJoined { player_id, .. } => rest.push(player_id),
            _ => rest,
        }
    }
}

/// The positions of the `PlayerJoined` events, in order.
pub open spec fn join_positions(events: Seq<GameEvent>) -> Seq<int>
    decreases events.len(),
{
    if events.len() == 0 {
        Seq::empty()
    } else {
        let rest = join_positions(events.drop_last());
        match events.last() {
            GameEvent::PlayerJoined { .. } => rest.push(events.len() - 1),
            _ => rest,
        }
    }
}

/// The name carried by the event at position `i`, when it is a join.
pub open spec fn joined_name(events: Seq<GameEvent>, i: int) -> Seq<char> {
    match events[i] {
        GameEvent::PlayerJoined { name, .. } => name@,
        _ => Seq::empty(),
    }
}

proof fn lemma_joins_step(events: Seq<GameEvent>, i: int)
    requires
        0 <= i < events.len(),
    ensures
        joins_of(events.take(i + 1)) == match events[i] {
            GameEvent::PlayerJoined { player_id, .. } => joins_of(events.take(i)).push(player_id),
            _ => joins_of(events.take(i)),
        },
        join_positions(events.take(i + 1)) == match events[i] {
            GameEvent::PlayerJoined { .. } => join_positions(events.take(i)).push(i),
            _ => join_positions(events.take(i)),
        },
{
    assert(events.take(i + 1).drop_last() =~= events.take(i));
}

proof fn lemma_joins_len(events: Seq<GameEvent>)
    ensures
        joins_of(events).len() == join_positions(events).len(),
        forall|k: int| 0 <= k < join_positions(events).len() ==> 0 <= #[trigger] join_positions(events)[k] < events.len()
            && (events[join_positions(events)[k]] matches GameEvent::PlayerJoined { player_id, .. } && player_id == joins_of(events)[k]),
    decreases events.len(),
{
    if events.len() > 0 {
        lemma_joins_len(events.drop_last());
        let d = events.drop_last();
        assert forall|k: int| 0 <= k < join_positions(d).len() implies events[#[trigger] join_positions(d)[k]] == d[join_positions(d)[k]] by {}
    }
}

/// The player pair that the joins of an event log make: the first joiner
/// holds `X`, the second `O`; there is none unless exactly two joined.
pub fn pair_from_events(events: &[GameEvent]) -> (r: Option<PlayerPair>)
    ensures
        joins_of(events@).len() != 2 ==> r is None,
        joins_of(events@).len() == 2 ==> (r matches Some(p) && p.x.0 == joins_of(events@)[0] && p.o.0 == joins_of(events@)[1]
            && p.x.1@ == joined_name(events@, join_positions(events@)[0])
            && p.o.1@ == joined_name(events@, join_positions(events@)[1])),
{
    let mut count: usize = 0;
    let mut first: Option<usize> = None;
    let mut second: Option<usize> = None;
    let mut i: usize = 0;
    while i < events.len()
        invariant
            i <= events@.len(),
            count <= i,
            count == joins_of(events@.take(i as int)).len(),
            joins_of(events@.take(i as int)).len() == join_positions(events@.take(i as int)).len(),
            count >= 1 ==> first == Some(join_positions(events@.take(i as int))[0] as usize),
            count >= 2 ==> second == Some(join_positions(events@.take(i as int))[1] as usize),
        decreases events@.len() - i,
    {
        proof {
            lemma_joins_step(events@, i as int);
        }
        if let GameEvent::PlayerJoined { .. } = &events[i] {
            if count == 0 {
                first = Some(i);
            } else if count == 1 {
                second = Some(i);
            }
            count = count + 1;
        }
        i = i + 1;
    }
    assert(events@.take(i as int) =~= events@);
    proof {
        lemma_joins_len(events@);
    }
    if count != 2 {
        return None;
    }
    match (first, second) {
        (Some(a), Some(b)) => match (&events[a], &events[b]) {
            (GameEvent::PlayerJoined { player_id: pa, name: na }, GameEvent::PlayerJoined { player_id: pb, name: nb }) => {
                Some(PlayerPair::new(*pa, na.clone(), *pb, nb.clone()))
            },
            _ => None,
        },
        _ => None,
    }
}

/// The joins of a log followed by more events are the joins of the log
/// followed by the joins of those events.
pub proof fn lemma_joins_of_append(a: Seq<GameEvent>, b: Seq<GameEvent>)
    ensures
        joins_of(a + b) == joins_of(a) + joins_of(b),
    decreases b.len(),
{
    if b.len() == 0 {
        assert(a + b =~= a);
        assert(joins_of(a) + joins_of(b) =~= joins_of(a));
    } else {
        lemma_joins_of_append(a, b.drop_last());
        assert((a + b).drop_last() =~= a + b.drop_last());
        match b.last() {
            GameEvent::PlayerJoined { player_id, .. } => {
                assert(joins_of(a) + joins_of(b.drop_last()).push(player_id) =~= (joins_of(a) + joins_of(
                    b.drop_last(),
                )).push(player_id));
            },
            _ => {},
        }
    }
}

/// The joined players agree with the player slots of the state: none while
/// the first slot is free, the `X` player while only the second is free,
/// and `X` then `O` once both are taken.
pub open spec fn joins_match(j: Seq<PlayerId>, s: GameState) -> bool {
    if s.players[0] == PlayerId(0) {
        j.len() == 0
    } else if s.players[1] == PlayerId(0) {
        j == seq![s.players[0]]
    } else {
        j == seq![s.players[0], s.players[1]]
    }
}

proof fn lemma_joins_one(e: GameEvent)
    ensures
        joins_of(seq![e]) == match e {
            GameEvent::PlayerJoined { player_id, .. } => seq![player_id],
            _ => Seq::<PlayerId>::empty(),
        },
{
    assert(seq![e].drop_last() =~= Seq::<GameEvent>::empty());
    assert(joins_of(Seq::<GameEvent>::empty()) =~= Seq::<PlayerId>::empty());
    match e {
        GameEvent::PlayerJoined { player_id, .. } => {
            assert(Seq::<PlayerId>::empty().push(player_id) =~= seq![player_id]);
        },
        _ => {},
    }
}

proof fn lemma_joins_two(e: GameEvent, f: GameEvent)
    requires
        !(f matches GameEvent::PlayerJoined { .. }),
    ensures
        joins_of(seq![e, f]) == joins_of(seq![e]),
{
    assert(seq![e, f].drop_last() =~= seq![e]);
}

proof fn lemma_step_keeps_joins_match(log: Seq<GameEvent>, cmd: GameCommand)
    requires
        valid_state(spec_hydrate(log)),
        joins_match(joins_of(log), spec_hydrate(log)),
    ensures
        joins_match(joins_of(step_log(log, cmd)), spec_hydrate(step_log(log, cmd))),
{
    let s = spec_hydrate(log);
    if let Ok(evs) = spec_decide(s, cmd) {
        lemma_hydrate_append(log, evs);
        lemma_joins_of_append(log, evs);
        let t = evolve_all(s, evs);
        match cmd {
            GameCommand::JoinGame { player_id, name } => {
                let join = GameEvent::PlayerJoined { player_id, name };
                let next = spec_evolve(s, join);
                lemma_joins_one(join);
                assert(seq![join].drop_last() =~= Seq::<GameEvent>::empty());
                if next.players[1] != PlayerId(0) {
                    let started = GameEvent::GameStarted { goes_first: next.players[0] };
                    lemma_joins_two(join, started);
                    lemma_evolve_all_two(s, join, started);
                } else {
                    lemma_evolve_all_one(s, join);
                }
                assert(joins_of(log) + seq![player_id] =~= joins_of(log).push(player_id));
                if s.players[0] != PlayerId(0) {
                    assert(seq![s.players[0]].push(player_id) =~= seq![s.players[0], player_id]);
                }
            },
            GameCommand::PlaceTile { player_id, at } => {
                let place = GameEvent::TilePlaced { player_id, at };
                lemma_joins_one(place);
                assert(seq![place].drop_last() =~= Seq::<GameEvent>::empty());
                if evs.len() == 2 {
                    lemma_joins_two(place, evs[1]);
                    assert(evs =~= seq![place, evs[1]]);
                    lemma_evolve_all_two(s, place, evs[1]);
                } else {
                    assert(evs =~= seq![place]);
                    lemma_evolve_all_one(s, place);
                }
                assert(joins_of(log) + Seq::<PlayerId>::empty() =~= joins_of(log));
            },
            GameCommand::LeaveGame { player_id } => {
                let leave = GameEvent::PlayerLeft { player_id };
                lemma_joins_one(leave);
                assert(seq![leave].drop_last() =~= Seq::<GameEvent>::empty());
                if evs.len() == 2 {
                    lemma_joins_two(leave, evs[1]);
                    assert(evs =~= seq![leave, evs[1]]);
                    lemma_evolve_all_two(s, leave, evs[1]);
                } else {
                    assert(evs =~= seq![leave]);
                    lemma_evolve_all_one(s, leave);
                }
                assert(joins_of(log) + Seq::<PlayerId>::empty() =~= joins_of(log));
            },
        }
    }
}

proof fn lemma_run_commands_joins(cmds: Seq<GameCommand>)
    ensures
        joins_match(joins_of(run_commands(cmds)), spec_hydrate(run_commands(cmds))),
    decreases cmds.len(),
{
    if cmds.len() == 0 {
        assert(joins_of(Seq::<GameEvent>::empty()) =~= Seq::<PlayerId>::empty());
    } else {
        lemma_run_commands_joins(cmds.drop_last());
        lemma_run_commands_valid(cmds.drop_last());
        lemma_step_keeps_joins_match(run_commands(cmds.drop_last()), cmds.last());
    }
}

/// In every game that commands drive, the client's player pair agrees with
/// the game state: there are exactly two joins once the game has left the
/// lobby, and fewer before; the first joiner holds slot `X` and the second
/// slot `O`, so the pair's `symbol_of` gives every player the symbol that
/// their moves put on the board.
pub proof fn lemma_pair_matches_state(cmds: Seq<GameCommand>, p: PlayerId)
    ensures
        ({
            let log = run_commands(cmds);
            let s = spec_hydrate(log);
            let j = joins_of(log);
            &&& (j.len() == 2 <==> s.stage != Stage::Lobby)
            &&& j.len() <= 2
            &&& j.len() == 2 ==> j[0] == s.players[0] && j[1] == s.players[1]
            &&& j.len() == 2 ==> (if j[0] == p {
                crate::state::Symbol::X
            } else {
                crate::state::Symbol::O
            }) == symbol_for(s, p)
        }),
{
    lemma_run_commands_joins(cmds);
    lemma_run_commands_valid(cmds);
}

/// The status line that the client shows after an event.
#[derive(Debug, PartialEq, Eq)]
pub enum Status {
    /// It is the local player's turn.
    YourTurn,
    /// It is the opponent's turn; their name, when the pair knows it.
    OpponentsTurn { name: Option<String> },
    /// The local player won.
    YouWin,
    /// The opponent won; their name, when the pair knows it.
    OpponentWins { name: Option<String> },
    /// The board filled up without a winner.
    Draw,
    /// A player left the game in progress.
    OpponentLeft,
}

impl Clone for Status {
    fn clone(&self) -> (r: Self)
        ensures
            r == *self,
    {
        match self {
            Status::YourTurn => Status::YourTurn,
            Status::OpponentsTurn { name } => Status::OpponentsTurn { name: name.clone() },
            Status::YouWin => Status::YouWin,
            Status::OpponentWins { name } => Status::OpponentWins { name: name.clone() },
            Status::Draw => Status::Draw,
            Status::OpponentLeft => Status::OpponentLeft,
        }
    }
}

/// The name of `id` in the pair, if there is a pair and `id` is in it.
pub open spec fn name_in(pair: Option<PlayerPair>, id: PlayerId) -> Option<String> {
    match pair {
        Some(p) => if p.x.0 == id {
            Some(p.x.1)
        } else if p.o.0 == id {
            Some(p.o.1)
        } else {
            None
        },
        None => None,
    }
}

/// The pair behind an optional reference.
pub open spec fn pair_of(pair: Option<&PlayerPair>) -> Option<PlayerPair> {
    match pair {
        Some(p) => Some(*p),
        None => None,
    }
}

/// The new status line after `event`, given the state after it, the local
/// player `me` and the pair; `None` when the event leaves it unchanged.
pub open spec fn spec_status(event: GameEvent, state: GameState, me: PlayerId, pair: Option<PlayerPair>) -> Option<Status> {
    match event {
        GameEvent::GameStarted { .. } | GameEvent::TilePlaced { .. } => if state.stage == Stage::InGame {
            if state.active_player_id == me {
                Some(Status::YourTurn)
            } else {
                Some(Status::OpponentsTurn { name: name_in(pair, state.active_player_id) })
            }
        } else {
            None
        },
        GameEvent::GameEnded { reason } => match reason {
            EndGameReason::PlayerWon { winner } => if winner == me {
                Some(Status::YouWin)
            } else {
                Some(Status::OpponentWins { name: name_in(pair, winner) })
            },
            EndGameReason::Draw => Some(Status::Draw),
            EndGameReason::PlayerLeft { .. } => Some(Status::OpponentLeft),
        },
        _ => None,
    }
}

fn name_of_opt(pair: Option<&PlayerPair>, id: PlayerId) -> (r: Option<String>)
    ensures
        r == name_in(pair_of(pair), id),
{
    match pair {
        Some(p) => if p.x.0 == id {
            Some(p.x.1.clone())
        } else if p.o.0 == id {
            Some(p.o.1.clone())
        } else {
            None
        },
        None => None,
    }
}

/// The status line after an event: whose turn it is while the game runs,
/// and how it ended once it is over; `None` when the event changes nothing.
pub fn status_after(event: &GameEvent, state: &GameState, me: PlayerId, pair: Option<&PlayerPair>) -> (r: Option<Status>)
    ensures
        r == spec_status(*event, *state, me, pair_of(pair)),
        (*event is GameStarted || *event is TilePlaced) && state.stage == Stage::InGame
            && state.active_player_id == me ==> r == Some(Status::YourTurn),
        (*event is GameStarted || *event is TilePlaced) && state.stage == Stage::InGame
            && state.active_player_id != me ==> (r matches Some(Status::OpponentsTurn { .. })),
        (*event is GameStarted || *event is TilePlaced) && state.stage != Stage::InGame ==> r is None,
        (*event is PlayerJoined || *event is PlayerLeft) ==> r is None,
        *event == (GameEvent::GameEnded { reason: EndGameReason::PlayerWon { winner: me } }) ==> r == Some(
            Status::YouWin,
        ),
        (event matches GameEvent::GameEnded { reason: EndGameReason::PlayerWon { winner } } && winner != me)
            ==> (r matches Some(Status::OpponentWins { .. })),
        *event == (GameEvent::GameEnded { reason: EndGameReason::Draw }) ==> r == Some(Status::Draw),
        (event matches GameEvent::GameEnded { reason: EndGameReason::PlayerLeft { .. } }) ==> r == Some(
            Status::OpponentLeft,
        ),
{
    match event {
        GameEvent::GameStarted { .. } | GameEvent::TilePlaced { .. } => {
            if state.stage != Stage::InGame {
                return None;
            }
            if state.active_player_id == me {
                Some(Status::YourTurn)
            } else {
                Some(Status::OpponentsTurn { name: name_of_opt(pair, state.active_player_id) })
            }
        },
        GameEvent::GameEnded { reason } => match reason {
            EndGameReason::PlayerWon { winner } => {
                if *winner == me {
                    Some(Status::YouWin)
                } else {
                    Some(Status::OpponentWins { name: name_of_opt(pair, *winner) })
                }
            },
            EndGameReason::Draw => Some(Status::Draw),
            EndGameReason::PlayerLeft { .. } => Some(Status::OpponentLeft),
        },
        _ => None,
    }
}

} // verus!
