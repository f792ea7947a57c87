use store::{GameId, PlayerId, PlayerPair, Symbol};

#[test]
fn player_pair_symbol_lookup() {
    let p1 = PlayerId(1);
    let p2 = PlayerId(2);
    let pair = PlayerPair::new(p1, "Alice".to_string(), p2, "Bob".to_string());

    assert_eq!(pair.symbol_of(p1), Symbol::X);
    assert_eq!(pair.symbol_of(p2), Symbol::O);
}

#[test]
fn player_pair_opponent_lookup() {
    let p1 = PlayerId(1);
    let p2 = PlayerId(2);
    let pair = PlayerPair::new(p1, "Alice".to_string(), p2, "Bob".to_string());

    assert_eq!(pair.opponent_of(p1), p2);
    assert_eq!(pair.opponent_of(p2), p1);
}

#[test]
fn player_pair_name_lookup() {
    let p1 = PlayerId(1);
    let p2 = PlayerId(2);
    let p3 = PlayerId(3);
    let pair = PlayerPair::new(p1, "Alice".to_string(), p2, "Bob".to_string());

    assert_eq!(pair.name_of(p1), Some("Alice"));
    assert_eq!(pair.name_of(p2), Some("Bob"));
    assert_eq!(pair.name_of(p3), None);
}

#[test]
fn game_id_generation() {
    let g1 = GameId::new();
    let g2 = GameId::new();
    assert_ne!(g1, g2);
}

#[test]
fn outsider_gets_x_as_opponent_and_o_as_symbol() {
    let pair = PlayerPair::new(PlayerId(1), "Alice".to_string(), PlayerId(2), "Bob".to_string());
    assert_eq!(pair.opponent_of(PlayerId(9)), PlayerId(1));
    assert_eq!(pair.symbol_of(PlayerId(9)), Symbol::O);
}

#[test]
fn opponent_of_opponent_is_the_player() {
    let pair = PlayerPair::new(PlayerId(7), "A".to_string(), PlayerId(8), "B".to_string());
    for p in [PlayerId(7), PlayerId(8)] {
        assert_eq!(pair.opponent_of(pair.opponent_of(p)), p);
    }
}

#[test]
fn cloned_pair_is_equal() {
    let pair = PlayerPair::new(PlayerId(7), "A".to_string(), PlayerId(8), "B".to_string());
    assert_eq!(pair.clone(), pair);
}
