use store::{GameCommand, GameEvent, PlayerId, SimulationHarness, Stage};

fn log3(p1: PlayerId, p2: PlayerId) -> Vec<GameEvent> {
    vec![
        GameEvent::PlayerJoined {
            player_id: p1,
            name: "Alice".to_string(),
        },
        GameEvent::PlayerJoined {
            player_id: p2,
            name: "Bob".to_string(),
        },
        GameEvent::GameStarted { goes_first: p1 },
    ]
}

#[test]
fn simulation_harness_step_through() {
    let p1 = PlayerId(1);
    let p2 = PlayerId(2);
    let log = log3(p1, p2);

    let mut harness = SimulationHarness::from_log_up_to(log.clone(), 0);
    assert_eq!(harness.cursor(), 0);
    assert_eq!(harness.state().players[0], PlayerId(0));

    harness.step_forward();
    assert_eq!(harness.cursor(), 1);
    assert_eq!(harness.state().players[0], p1);

    harness.run_to_end();
    assert_eq!(harness.cursor(), 3);
    assert_eq!(harness.state().players[1], p2);
    assert_eq!(harness.state().active_player_id, p1);
}

#[test]
fn simulation_harness_branching() {
    let p1 = PlayerId(1);
    let p2 = PlayerId(2);
    let log = log3(p1, p2);

    let harness = SimulationHarness::from_log(log);
    let cmd = GameCommand::PlaceTile {
        player_id: p1,
        at: 0,
    };

    let (events, next_state) = harness.branch_with_command(&cmd).unwrap();
    assert_eq!(events.len(), 1);
    assert!(matches!(events[0], GameEvent::TilePlaced { at: 0, .. }));
    assert_eq!(next_state.active_player_id, p2);

    // Original harness remains unchanged
    assert_eq!(harness.state().active_player_id, p1);
}

#[test]
fn step_forward_at_end_reports_false() {
    let mut harness = SimulationHarness::from_log(log3(PlayerId(1), PlayerId(2)));
    assert!(harness.is_exhausted());
    assert!(!harness.step_forward());
    assert_eq!(harness.cursor(), 3);
}

#[test]
fn rewind_and_fast_forward_are_capped() {
    let mut harness = SimulationHarness::from_log(log3(PlayerId(1), PlayerId(2)));
    harness.rewind_to(1);
    assert_eq!(harness.cursor(), 1);
    assert_eq!(harness.state().stage, Stage::Lobby);
    assert!(!harness.is_exhausted());
    harness.rewind_to(10);
    assert_eq!(harness.cursor(), 3);
    assert_eq!(harness.state().stage, Stage::InGame);
    let capped = SimulationHarness::from_log_up_to(log3(PlayerId(1), PlayerId(2)), 99);
    assert_eq!(capped.cursor(), 3);
}

#[test]
fn branch_reports_refusal() {
    let harness = SimulationHarness::from_log_up_to(log3(PlayerId(1), PlayerId(2)), 1);
    let r = harness.branch_with_command(&GameCommand::PlaceTile { player_id: PlayerId(1), at: 0 });
    assert!(r.is_err());
}

#[test]
fn stepping_equals_jumping() {
    let log = log3(PlayerId(1), PlayerId(2));
    for k in 0..=3 {
        for m in 0..=(3 - k) {
            let mut h1 = SimulationHarness::from_log(log.clone());
            let mut h2 = h1.clone();
            h1.rewind_to(k);
            for _ in 0..m {
                assert!(h1.step_forward());
            }
            h2.rewind_to(k + m);
            assert_eq!(h1.cursor(), k + m);
            assert_eq!(h2.cursor(), k + m);
            assert!(h1.cursor() <= log.len());
            let (s1, s2) = (h1.state(), h2.state());
            assert_eq!(s1.stage, s2.stage);
            assert_eq!(s1.players, s2.players);
            assert_eq!(s1.active_player_id, s2.active_player_id);
            assert_eq!(s1.board, s2.board);
        }
    }
}
