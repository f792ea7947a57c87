use store::store::EventStore;
use store::{
    acknowledges, EventPublisher, GameCommand, GameEvent, GameEventEnvelope, GameId, GameService,
    NetworkBroadcaster, NoopBroadcaster, NoopPublisher, PlayerId, ServiceError, TicTacTussleError,
};

struct FailingBroadcaster;

impl NetworkBroadcaster for FailingBroadcaster {
    fn broadcast(&self, _: &GameEvent) -> anyhow::Result<()> {
        Err(anyhow::Error::msg("network down"))
    }
    fn send_to(&self, _: u64, _: &GameEvent) -> anyhow::Result<()> {
        Err(anyhow::Error::msg("network down"))
    }
}

struct FailingPublisher;

impl EventPublisher for FailingPublisher {
    fn publish_batch(&self, _: Vec<GameEventEnvelope>) -> anyhow::Result<()> {
        Err(anyhow::Error::msg("broker down"))
    }
    fn publish_command(&self, _: &GameCommand) -> anyhow::Result<()> {
        Err(anyhow::Error::msg("broker down"))
    }
}

fn join(n: u64, name: &str) -> GameCommand {
    GameCommand::JoinGame { player_id: PlayerId(n), name: name.to_string() }
}

#[test]
fn accepted_commands_are_handled_and_acknowledged() {
    let mut service = GameService::builder()
        .store(EventStore::new(GameId::new()))
        .publisher(NoopPublisher)
        .broadcaster(NoopBroadcaster)
        .build();
    let r = service.handle(&join(1, "Alice"));
    assert!(r.is_ok());
    assert!(acknowledges(&r));
    assert!(service.handle(&join(2, "Bob")).is_ok());
    assert!(service.catch_up(7).is_ok());
    assert!(service.publish_command(&join(3, "Carol")).is_ok());
}

#[test]
fn refused_command_is_a_domain_error_and_acknowledged() {
    let mut service = GameService::builder()
        .store(EventStore::new(GameId::new()))
        .publisher(NoopPublisher)
        .broadcaster(NoopBroadcaster)
        .build();
    assert!(service.handle(&join(1, "Alice")).is_ok());
    let r = service.handle(&join(1, "Alice"));
    assert!(matches!(r, Err(ServiceError::Domain(TicTacTussleError::AlreadyJoined(p))) if p == PlayerId(1)));
    assert!(acknowledges(&r));
}

#[test]
fn broadcast_failure_is_not_acknowledged_but_publish_failure_is_ignored() {
    let mut service = GameService::builder()
        .store(EventStore::new(GameId::new()))
        .publisher(FailingPublisher)
        .broadcaster(FailingBroadcaster)
        .build();
    let r = service.handle(&join(1, "Alice"));
    assert!(matches!(r, Err(ServiceError::Broadcast(_))));
    assert!(!acknowledges(&r));
    // The join was stored even though the broadcast failed: joining again is refused.
    let again = service.handle(&join(1, "Alice"));
    assert!(matches!(again, Err(ServiceError::Domain(TicTacTussleError::AlreadyJoined(_)))));
    assert!(service.catch_up(1).is_err());
    assert!(service.publish_command(&join(2, "Bob")).is_err());
}

#[test]
fn catch_up_of_an_empty_log_sends_nothing() {
    let service = GameService::builder()
        .store(EventStore::new(GameId::new()))
        .publisher(NoopPublisher)
        .broadcaster(FailingBroadcaster)
        .build();
    assert!(service.catch_up(1).is_ok());
}

#[test]
fn noop_ports_always_succeed() {
    let e = GameEvent::TilePlaced { player_id: PlayerId(1), at: 4 };
    assert!(NoopBroadcaster.broadcast(&e).is_ok());
    assert!(NoopBroadcaster.send_to(123, &e).is_ok());
    assert!(NoopPublisher.publish_batch(Vec::new()).is_ok());
    assert!(NoopPublisher.publish_command(&join(1, "A")).is_ok());
}

#[test]
fn port_failures_come_back_under_their_messages() {
    let mut service = GameService::builder()
        .store(EventStore::new(GameId::new()))
        .publisher(FailingPublisher)
        .broadcaster(FailingBroadcaster)
        .build();
    match service.handle(&join(1, "Alice")) {
        Err(ServiceError::Broadcast(e)) => {
            assert_eq!(e.to_string(), "broadcast");
            assert_eq!(e.root_cause().to_string(), "network down");
        }
        _ => panic!("expected a broadcast failure"),
    }
    let e = service.catch_up(3).unwrap_err();
    assert_eq!(format!("{e:#}"), "catch-up send_to: network down");
    let e = service.publish_command(&join(2, "Bob")).unwrap_err();
    assert_eq!(format!("{e:#}"), "publish_command: broker down");
}
