//! GameService: the application-layer orchestrator of one game session.
//!
//! It wires the decider to the event store, a publisher and a broadcaster:
//! a command is decided against the state that the store's log describes;
//! the events of an accepted command are appended to the store, published,
//! and broadcast to the clients.
//!
//! The service is put together by a type-state builder: `build` exists only
//! once a store, a publisher and a broadcaster have all been given.

use vstd::prelude::*;
use crate::commands::GameCommand;
use crate::ext::with_context;
use crate::decider::{log_applicable, spec_decide, spec_hydrate, GameDecider};
use crate::errors::TicTacTussleError;
use crate::events::{GameEvent, GameEventEnvelope};
use crate::invariants::{decided_events, lemma_decided_applicable, lemma_log_applicable_append, step_log};
use crate::ports::{EventPublisher, NetworkBroadcaster};
use crate::store::{events_of, EventStore};
use crate::state::GameId;

verus! {

/// Why the service could not handle a command.
pub enum ServiceError {
    /// The decider refused the command; nothing was stored. Retrying the
    /// same command against the same log is refused again.
    Domain(TicTacTussleError),
    /// The events were stored, but broadcasting one of them failed (the
    /// error comes under the message "broadcast").
    Broadcast(anyhow::Error),
}

/// Whether a broker message whose command got this answer is acknowledged:
/// a handled command and a command that the domain refuses are both
/// acknowledged (a refusal would only be repeated on redelivery); a
/// transient failure is not, so that the broker delivers it again.
pub fn acknowledges(r: &Result<(), ServiceError>) -> (ack: bool)
    ensures
        ack == (r is Ok || r matches Err(ServiceError::Domain(_))),
{
    match r {
        Ok(()) => true,
        Err(ServiceError::Domain(_)) => true,
        Err(ServiceError::Broadcast(_)) => false,
    }
}

/// The broadcast stopped at a failure: after the events already broadcast
/// come the events of `evs` up to and including the one that failed.
pub open spec fn broadcast_stopped(before: Seq<GameEvent>, after: Seq<GameEvent>, evs: Seq<GameEvent>) -> bool {
    exists|k: int| 0 <= k < evs.len() && after == before + #[trigger] evs.take(k + 1)
}

/// One game session: its event store and its two ports.
pub struct GameService<P, B> {
    store: EventStore,
    publisher: P,
    broadcaster: B,
    /// The envelopes handed to the publisher so far, oldest first.
    published: Ghost<Seq<GameEventEnvelope>>,
    /// The events handed to the broadcaster so far, oldest first.
    broadcast: Ghost<Seq<GameEvent>>,
}

impl GameService<(), ()> {
    /// Starts building a service.
    pub fn builder() -> (r: Builder<(), (), ()>)
        ensures
            r.held_publisher() == (),
            r.held_broadcaster() == (),
    {
        Builder { store: (), publisher: (), broadcaster: () }
    }
}

impl<P, B> GameService<P, B> {
    /// The events of the session so far, oldest first.
    pub closed spec fn log(&self) -> Seq<GameEvent> {
        self.store.event_log()
    }

    /// The game of the session.
    pub closed spec fn game(&self) -> GameId {
        self.store.id()
    }

    /// The envelopes of the session so far, oldest first.
    pub closed spec fn envelopes(&self) -> Seq<GameEventEnvelope> {
        self.store.envelopes()
    }

    /// The envelopes handed to `publish_batch` so far, oldest first.
    pub closed spec fn published(&self) -> Seq<GameEventEnvelope> {
        self.published@
    }

    /// The events handed to `broadcast` so far, oldest first.
    pub closed spec fn broadcasts(&self) -> Seq<GameEvent> {
        self.broadcast@
    }

    /// The session's log can be replayed.
    pub open spec fn wf(&self) -> bool {
        log_applicable(self.log())
    }
}

impl<P: EventPublisher, B: NetworkBroadcaster> GameService<P, B> {
    /// Handles a command: rebuilds the state from the store, decides the
    /// command, appends the events, publishes them (a publishing failure is
    /// not fatal) and broadcasts them in order (the first failure is).
    pub fn handle(&mut self, cmd: &GameCommand) -> (r: Result<(), ServiceError>)
        requires
            old(self).wf(),
        ensures
            final(self).wf(),
            final(self).game() == old(self).game(),
            final(self).log() == step_log(old(self).log(), *cmd),
            spec_decide(spec_hydrate(old(self).log()), *cmd) matches Err(e) ==> (r matches Err(
                ServiceError::Domain(d),
            ) && d == e),
            spec_decide(spec_hydrate(old(self).log()), *cmd) is Ok ==> !(r matches Err(
                ServiceError::Domain(_),
            )),
            final(self).envelopes().len() == old(self).envelopes().len() + decided_events(
                spec_hydrate(old(self).log()),
                *cmd,
            ).len(),
            final(self).published() == old(self).published() + final(self).envelopes().skip(
                old(self).envelopes().len() as int,
            ),
            r is Ok ==> final(self).broadcasts() == old(self).broadcasts() + decided_events(
                spec_hydrate(old(self).log()),
                *cmd,
            ),
            r matches Err(ServiceError::Domain(_)) ==> final(self).broadcasts() == old(self).broadcasts(),
            r matches Err(ServiceError::Broadcast(_)) ==> broadcast_stopped(
                old(self).broadcasts(),
                final(self).broadcasts(),
                decided_events(spec_hydrate(old(self).log()), *cmd),
            ),
    {
        let log = self.store.events();
        let state = GameDecider::hydrate(log.as_slice());
        let events = match GameDecider::decide(&state, cmd) {
            Ok(events) => events,
            Err(e) => {
                return Err(ServiceError::Domain(e));
            },
        };
        proof {
            lemma_decided_applicable(state, *cmd);
            lemma_log_applicable_append(self.log(), events@);
        }
        let ghost before = self.store.envelopes();
        let envelopes = self.store.append_batch(events.clone(), None);
        proof {
            assert(events_of(before + envelopes@) =~= events_of(before) + events_of(envelopes@));
            assert((before + envelopes@).skip(before.len() as int) =~= envelopes@);
        }
        let ghost handed = envelopes@;
        let _ = self.publisher.publish_batch(envelopes);
        self.published = Ghost(self.published@ + handed);
        let mut i: usize = 0;
        while i < events.len()
            invariant
                i <= events@.len(),
                self.wf(),
                self.log() == step_log(old(self).log(), *cmd),
                self.game() == old(self).game(),
                spec_decide(spec_hydrate(old(self).log()), *cmd) is Ok,
                events@ == decided_events(spec_hydrate(old(self).log()), *cmd),
                self.envelopes().len() == old(self).envelopes().len() + events@.len(),
                self.published() == old(self).published() + self.envelopes().skip(old(self).envelopes().len() as int),
                self.broadcasts() == old(self).broadcasts() + events@.take(i as int),
            decreases events@.len() - i,
        {
            let sent = self.broadcaster.broadcast(&events[i]);
            self.broadcast = Ghost(self.broadcast@.push(events@[i as int]));
            proof {
                assert(events@.take(i + 1) =~= events@.take(i as int).push(events@[i as int]));
            }
            if let Err(e) = sent {
                return Err(ServiceError::Broadcast(with_context(e, "broadcast")));
            }
            i = i + 1;
        }
        assert(events@.take(i as int) =~= events@);
        Ok(())
    }

    /// Sends the full event history to one client (a newly connected one),
    /// oldest first; stops at the first failure, which comes back under the
    /// message "catch-up send_to".
    pub fn catch_up(&self, client_id: u64) -> (r: Result<(), anyhow::Error>)
        ensures
            self.log().len() == 0 ==> r is Ok,
    {
        let envelopes = self.store.snapshot();
        let mut i: usize = 0;
        while i < envelopes.len()
            invariant
                i <= envelopes@.len(),
                envelopes@.len() == self.log().len(),
            decreases envelopes@.len() - i,
        {
            if let Err(e) = self.broadcaster.send_to(client_id, &envelopes[i].event) {
                return Err(with_context(e, "catch-up send_to"));
            }
            i = i + 1;
        }
        Ok(())
    }

    /// Publishes a command to the broker; a failure comes back under the
    /// message "publish_command".
    pub fn publish_command(&self, cmd: &GameCommand) -> Result<(), anyhow::Error> {
        match self.publisher.publish_command(cmd) {
            Ok(()) => Ok(()),
            Err(e) => Err(with_context(e, "publish_command")),
        }
    }
}

/// A service under construction: `S`, `P` and `B` are `()` until the store,
/// the publisher and the broadcaster are given.
pub struct Builder<S, P, B> {
    store: S,
    publisher: P,
    broadcaster: B,
}

impl<S, P, B> Builder<S, P, B> {
    /// The store given so far.
    pub closed spec fn held_store(&self) -> S {
        self.store
    }

    /// The publisher given so far.
    pub closed spec fn held_publisher(&self) -> P {
        self.publisher
    }

    /// The broadcaster given so far.
    pub closed spec fn held_broadcaster(&self) -> B {
        self.broadcaster
    }
}

impl<P, B> Builder<(), P, B> {
    /// Gives the event store.
    pub fn store(self, s: EventStore) -> (r: Builder<EventStore, P, B>)
        ensures
            r.held_store() == s,
            r.held_publisher() == self.held_publisher(),
            r.held_broadcaster() == self.held_broadcaster(),
    {
        Builder { store: s, publisher: self.publisher, broadcaster: self.broadcaster }
    }
}

impl<S, B> Builder<S, (), B> {
    /// Gives the publisher.
    pub fn publisher<Q: EventPublisher + 'static>(self, p: Q) -> (r: Builder<S, Q, B>)
        ensures
            r.held_store() == self.held_store(),
            r.held_publisher() == p,
            r.held_broadcaster() == self.held_broadcaster(),
    {
        Builder { store: self.store, publisher: p, broadcaster: self.broadcaster }
    }
}

impl<S, P> Builder<S, P, ()> {
    /// Gives the broadcaster.
    pub fn broadcaster<C: NetworkBroadcaster + 'static>(self, b: C) -> (r: Builder<S, P, C>)
        ensures
            r.held_store() == self.held_store(),
            r.held_publisher() == self.held_publisher(),
            r.held_broadcaster() == b,
    {
        Builder { store: self.store, publisher: self.publisher, broadcaster: b }
    }
}

impl<P: EventPublisher, B: NetworkBroadcaster> Builder<EventStore, P, B> {
    /// Builds the service. The store's log must be replayable (as the log
    /// of a new store, or one that only the service has appended to, is).
    pub fn build(self) -> (r: GameService<P, B>)
        requires
            log_applicable(self.held_store().event_log()),
        ensures
            r.wf(),
            r.log() == self.held_store().event_log(),
            r.game() == self.held_store().id(),
            r.published() == Seq::<GameEventEnvelope>::empty(),
            r.broadcasts() == Seq::<GameEvent>::empty(),
    {
        GameService {
            store: self.store,
            publisher: self.publisher,
            broadcaster: self.broadcaster,
            published: Ghost(Seq::empty()),
            broadcast: Ghost(Seq::empty()),
        }
    }
}

} // verus!
