use store::{EndGameReason, GameCommand, GameDecider, GameEvent, GameState, PlayerId, Stage, Symbol, Tile, TicTacTussleError};

fn pid(n: u64) -> PlayerId {
    PlayerId(n)
}

fn started() -> (GameState, PlayerId, PlayerId) {
    let s0 = GameState::default();
    let e1 = GameDecider::decide(
        &s0,
        &GameCommand::JoinGame {
            player_id: pid(1),
            name: "Alice".into(),
        },
    )
    .unwrap();
    let s1 = GameDecider::hydrate(&e1);
    let e2 = GameDecider::decide(
        &s1,
        &GameCommand::JoinGame {
            player_id: pid(2),
            name: "Bob".into(),
        },
    )
    .unwrap();
    let all: Vec<_> = e1.into_iter().chain(e2).collect();
    let s2 = GameDecider::hydrate(&all);
    (s2.clone(), s2.players[0], s2.players[1])
}

fn play(mut s: GameState, moves: &[(PlayerId, usize)]) -> GameState {
    for &(p, at) in moves {
        let evs = GameDecider::decide(&s, &GameCommand::PlaceTile { player_id: p, at }).unwrap();
        s = evs.iter().fold(s, |st, e| GameDecider::evolve(&st, e));
    }
    s
}

#[test]
fn two_joins_starts_game() {
    let (s, _, _) = started();
    assert_eq!(s.stage, Stage::InGame);
}

#[test]
fn x_goes_first() {
    let (s, x, _) = started();
    assert_eq!(s.active_player_id, x);
}

#[test]
fn wrong_turn_rejected() {
    let (s, _, o) = started();
    assert!(matches!(
        GameDecider::decide(
            &s,
            &GameCommand::PlaceTile {
                player_id: o,
                at: 0
            }
        ),
        Err(TicTacTussleError::NotYourTurn(_))
    ));
}

#[test]
fn occupied_tile_rejected() {
    let (s, x, o) = started();
    let evs = GameDecider::decide(
        &s,
        &GameCommand::PlaceTile {
            player_id: x,
            at: 4,
        },
    )
    .unwrap();
    let s2 = evs.iter().fold(s, |st, e| GameDecider::evolve(&st, e));
    assert!(matches!(
        GameDecider::decide(
            &s2,
            &GameCommand::PlaceTile {
                player_id: o,
                at: 4
            }
        ),
        Err(TicTacTussleError::TileOccupied(4))
    ));
}

#[test]
fn win_ends_game() {
    let (s, x, o) = started();
    // X wins top row: 0,1,2
    let s = play(s, &[(x, 0), (o, 3), (x, 1), (o, 4), (x, 2)]);
    assert_eq!(s.stage, Stage::Ended);
}

#[test]
fn draw_ends_game() {
    let (s, x, o) = started();
    // No-win fill: X=0,2,5,7,8  O=1,3,4,6
    let s = play(
        s,
        &[
            (x, 0),
            (o, 1),
            (x, 2),
            (o, 3),
            (x, 5),
            (o, 4),
            (x, 7),
            (o, 6),
            (x, 8),
        ],
    );
    assert_eq!(s.stage, Stage::Ended);
}

#[test]
fn player_leaves_lobby() {
    let state = GameState::default();
    let p1 = PlayerId(1);
    let events = GameDecider::decide(
        &state,
        &GameCommand::JoinGame {
            player_id: p1,
            name: "Alice".to_string(),
        },
    )
    .unwrap();
    let state = GameDecider::evolve(&state, &events[0]);

    let leave_events =
        GameDecider::decide(&state, &GameCommand::LeaveGame { player_id: p1 }).unwrap();
    assert_eq!(leave_events.len(), 1);
    assert!(matches!(leave_events[0], GameEvent::PlayerLeft { player_id } if player_id == p1));

    // Leaving the lobby does not end the game.
    assert!(
        !leave_events
            .iter()
            .any(|e| matches!(e, GameEvent::GameEnded { .. }))
    );
}

#[test]
fn player_leaves_ingame_ends_game() {
    let (state, p1, _p2) = started();
    let leave_events =
        GameDecider::decide(&state, &GameCommand::LeaveGame { player_id: p1 }).unwrap();

    assert_eq!(leave_events.len(), 2);
    assert!(matches!(leave_events[0], GameEvent::PlayerLeft { player_id } if player_id == p1));
    assert!(
        matches!(leave_events[1], GameEvent::GameEnded { reason: EndGameReason::PlayerLeft { player_id: pid } } if pid == p1)
    );
}

#[test]
fn join_outside_lobby_is_wrong_stage() {
    let (s, _, _) = started();
    let r = GameDecider::decide(&s, &GameCommand::JoinGame { player_id: pid(3), name: "Carol".into() });
    assert!(matches!(
        r,
        Err(TicTacTussleError::WrongStage { expected: Stage::Lobby, actual: Stage::InGame })
    ));
}

#[test]
fn joining_twice_is_refused() {
    let s0 = GameState::default();
    let e1 = GameDecider::decide(&s0, &GameCommand::JoinGame { player_id: pid(1), name: "Alice".into() }).unwrap();
    assert_eq!(e1.len(), 1);
    let s1 = GameDecider::hydrate(&e1);
    let r = GameDecider::decide(&s1, &GameCommand::JoinGame { player_id: pid(1), name: "Alice".into() });
    assert!(matches!(r, Err(TicTacTussleError::AlreadyJoined(p)) if p == pid(1)));
}

#[test]
fn second_join_starts_with_the_first_player() {
    let s0 = GameState::default();
    let e1 = GameDecider::decide(&s0, &GameCommand::JoinGame { player_id: pid(5), name: "Alice".into() }).unwrap();
    let s1 = GameDecider::hydrate(&e1);
    let e2 = GameDecider::decide(&s1, &GameCommand::JoinGame { player_id: pid(9), name: "Bob".into() }).unwrap();
    assert_eq!(
        e2,
        vec![
            GameEvent::PlayerJoined { player_id: pid(9), name: "Bob".into() },
            GameEvent::GameStarted { goes_first: pid(5) },
        ]
    );
}

#[test]
fn place_tile_errors() {
    let (s, x, _) = started();
    assert!(matches!(
        GameDecider::decide(&s, &GameCommand::PlaceTile { player_id: x, at: 9 }),
        Err(TicTacTussleError::TileOutOfRange(9))
    ));
    let lobby = GameState::default();
    assert!(matches!(
        GameDecider::decide(&lobby, &GameCommand::PlaceTile { player_id: x, at: 0 }),
        Err(TicTacTussleError::WrongStage { expected: Stage::InGame, actual: Stage::Lobby })
    ));
}

#[test]
fn winning_move_reports_the_mover() {
    let (s, x, o) = started();
    let s = play(s, &[(x, 0), (o, 3), (x, 1), (o, 4)]);
    let evs = GameDecider::decide(&s, &GameCommand::PlaceTile { player_id: x, at: 2 }).unwrap();
    assert_eq!(
        evs,
        vec![
            GameEvent::TilePlaced { player_id: x, at: 2 },
            GameEvent::GameEnded { reason: EndGameReason::PlayerWon { winner: x } },
        ]
    );
}

#[test]
fn last_move_filling_the_board_is_a_draw() {
    let (s, x, o) = started();
    // Final board: X O X / X O O / O X X, with no line.
    let s = play(s, &[(x, 0), (o, 1), (x, 2), (o, 4), (x, 3), (o, 5), (x, 7), (o, 6)]);
    let evs = GameDecider::decide(&s, &GameCommand::PlaceTile { player_id: x, at: 8 }).unwrap();
    assert_eq!(evs[1], GameEvent::GameEnded { reason: EndGameReason::Draw });
}

#[test]
fn moves_place_symbols_and_pass_the_turn() {
    let (s, x, o) = started();
    let s = play(s, &[(x, 4)]);
    assert_eq!(s.board[4], Tile::Occupied(Symbol::X));
    assert_eq!(s.active_player_id, o);
    let s = play(s, &[(o, 0)]);
    assert_eq!(s.board[0], Tile::Occupied(Symbol::O));
    assert_eq!(s.active_player_id, x);
}

#[test]
fn hydrate_of_concatenation_is_evolve_over_the_rest() {
    let log = vec![
        GameEvent::PlayerJoined { player_id: pid(1), name: "A".into() },
        GameEvent::PlayerJoined { player_id: pid(2), name: "B".into() },
        GameEvent::GameStarted { goes_first: pid(1) },
        GameEvent::TilePlaced { player_id: pid(1), at: 4 },
    ];
    let whole = GameDecider::hydrate(&log);
    let head = GameDecider::hydrate(&log[..2]);
    let rest = log[2..].iter().fold(head, |s, e| GameDecider::evolve(&s, e));
    assert_eq!(whole.board, rest.board);
    assert_eq!(whole.players, rest.players);
    assert_eq!(whole.active_player_id, rest.active_player_id);
    assert_eq!(whole.stage, rest.stage);
}

#[test]
fn refused_command_in_ended_game_and_leave_after_end() {
    let (s, x, o) = started();
    let s = play(s, &[(x, 0), (o, 3), (x, 1), (o, 4), (x, 2)]);
    assert!(matches!(
        GameDecider::decide(&s, &GameCommand::PlaceTile { player_id: o, at: 5 }),
        Err(TicTacTussleError::WrongStage { expected: Stage::InGame, actual: Stage::Ended })
    ));
    let evs = GameDecider::decide(&s, &GameCommand::LeaveGame { player_id: o }).unwrap();
    assert_eq!(evs, vec![GameEvent::PlayerLeft { player_id: o }]);
}
