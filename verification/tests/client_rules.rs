use store::client::{cell_at, pair_from_events, status_after, Status};
use store::{EndGameReason, GameCommand, GameEvent, GameState, PlayerId, PlayerPair, Stage, Symbol, Tile};

fn in_game(active: u64) -> GameState {
    let mut s = GameState::default();
    s.stage = Stage::InGame;
    s.players = [PlayerId(1), PlayerId(2)];
    s.active_player_id = PlayerId(active);
    s
}

#[test]
fn cells_map_row_major() {
    assert_eq!(cell_at(0, 0), Some(0));
    assert_eq!(cell_at(2, 1), Some(5));
    assert_eq!(cell_at(1, 2), Some(7));
    assert_eq!(cell_at(3, 0), None);
    assert_eq!(cell_at(0, -1), None);
}

#[test]
fn click_becomes_a_move_only_on_my_turn_and_an_empty_cell() {
    let s = in_game(1);
    assert_eq!(
        s.move_command(Some(PlayerId(1)), 4),
        Some(GameCommand::PlaceTile { player_id: PlayerId(1), at: 4 })
    );
    assert_eq!(s.move_command(Some(PlayerId(2)), 4), None);
    assert_eq!(s.move_command(None, 4), None);
    let mut t = s.clone();
    t.board[4] = Tile::Occupied(Symbol::O);
    assert_eq!(t.move_command(Some(PlayerId(1)), 4), None);
    assert!(s.is_turn_of(Some(PlayerId(1))));
    assert!(!GameState::default().is_turn_of(Some(PlayerId(0))));
}

#[test]
fn pair_needs_exactly_two_joins() {
    let j1 = GameEvent::PlayerJoined { player_id: PlayerId(1), name: "Alice".into() };
    let j2 = GameEvent::PlayerJoined { player_id: PlayerId(2), name: "Bob".into() };
    let start = GameEvent::GameStarted { goes_first: PlayerId(1) };
    assert_eq!(pair_from_events(&[j1.clone()]), None);
    let pair = pair_from_events(&[j1.clone(), j2.clone(), start]).unwrap();
    assert_eq!(pair, PlayerPair::new(PlayerId(1), "Alice".into(), PlayerId(2), "Bob".into()));
    let j3 = GameEvent::PlayerJoined { player_id: PlayerId(3), name: "Carol".into() };
    assert_eq!(pair_from_events(&[j1, j2, j3]), None);
}

#[test]
fn status_lines() {
    let pair = PlayerPair::new(PlayerId(1), "Alice".into(), PlayerId(2), "Bob".into());
    let started = GameEvent::GameStarted { goes_first: PlayerId(1) };
    assert_eq!(status_after(&started, &in_game(1), PlayerId(1), Some(&pair)), Some(Status::YourTurn));
    assert_eq!(
        status_after(&started, &in_game(1), PlayerId(2), Some(&pair)),
        Some(Status::OpponentsTurn { name: Some("Alice".to_string()) })
    );
    assert_eq!(
        status_after(&started, &in_game(1), PlayerId(2), None),
        Some(Status::OpponentsTurn { name: None })
    );
    let won = GameEvent::GameEnded { reason: EndGameReason::PlayerWon { winner: PlayerId(2) } };
    let mut ended = in_game(1);
    ended.stage = Stage::Ended;
    assert_eq!(status_after(&won, &ended, PlayerId(2), Some(&pair)), Some(Status::YouWin));
    assert_eq!(
        status_after(&won, &ended, PlayerId(1), Some(&pair)),
        Some(Status::OpponentWins { name: Some("Bob".to_string()) })
    );
    let draw = GameEvent::GameEnded { reason: EndGameReason::Draw };
    assert_eq!(status_after(&draw, &ended, PlayerId(1), Some(&pair)), Some(Status::Draw));
    let left = GameEvent::GameEnded { reason: EndGameReason::PlayerLeft { player_id: PlayerId(2) } };
    assert_eq!(status_after(&left, &ended, PlayerId(1), Some(&pair)), Some(Status::OpponentLeft));
    let placed = GameEvent::TilePlaced { player_id: PlayerId(1), at: 0 };
    assert_eq!(status_after(&placed, &ended, PlayerId(1), Some(&pair)), None);
    let joined = GameEvent::PlayerJoined { player_id: PlayerId(1), name: "Alice".into() };
    assert_eq!(status_after(&joined, &in_game(1), PlayerId(1), Some(&pair)), None);
}
