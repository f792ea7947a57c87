//! Ports: how the game talks to the outside world (a message broker and
//! the network), with do-nothing implementations for tests.

use vstd::prelude::*;
use crate::commands::GameCommand;
use crate::events::{GameEvent, GameEventEnvelope};

verus! {

/// Publishes the game's events and commands to a message broker.
pub trait EventPublisher: Send + Sync {
    /// Publishes envelopes, in order.
    fn publish_batch(&self, envelopes: Vec<GameEventEnvelope>) -> Result<(), anyhow::Error>;

    /// Publishes a command.
    fn publish_command(&self, cmd: &GameCommand) -> Result<(), anyhow::Error>;
}

/// Sends game events to the connected clients.
pub trait NetworkBroadcaster: Send + Sync {
    /// Sends an event to every connected client.
    fn broadcast(&self, event: &GameEvent) -> Result<(), anyhow::Error>;

    /// Sends an event to one client.
    fn send_to(&self, client_id: u64, event: &GameEvent) -> Result<(), anyhow::Error>;
}

/// A publisher that drops everything and always succeeds.
pub struct NoopPublisher;

impl EventPublisher for NoopPublisher {
    fn publish_batch(&self, envelopes: Vec<GameEventEnvelope>) -> (r: Result<(), anyhow::Error>)
        ensures
            r is Ok,
    {
        Ok(())
    }

    fn publish_command(&self, cmd: &GameCommand) -> (r: Result<(), anyhow::Error>)
        ensures
            r is Ok,
    {
        Ok(())
    }
}

/// A broadcaster that drops everything and always succeeds.
pub struct NoopBroadcaster;

impl NetworkBroadcaster for NoopBroadcaster {
    fn broadcast(&self, event: &GameEvent) -> (r: Result<(), anyhow::Error>)
        ensures
            r is Ok,
    {
        Ok(())
    }

    fn send_to(&self, client_id: u64, event: &GameEvent) -> (r: Result<(), anyhow::Error>)
        ensures
            r is Ok,
    {
        Ok(())
    }
}

} // verus!
