//! EventStore: the append-only event log of one game session.
//!
//! Every envelope in the store carries the store's game id and, as its
//! sequence number, its position in the log.

use vstd::prelude::*;
use crate::decider::{event_applicable, log_applicable};
use crate::events::{GameEvent, GameEventEnvelope};
use crate::state::GameId;

verus! {

/// The event log of a game session.
pub struct EventStore {
    /// The game this store belongs to.
    game_id: GameId,
    /// The envelopes, in the order they were appended.
    log: Vec<GameEventEnvelope>,
}

impl core::fmt::Debug for EventStore {
    /// Writes the store's game id and the length of its log.
    #[verifier::external_body]
    fn fmt(&self, f: &mut core::fmt::Formatter<'_>) -> core::fmt::Result {
        f.debug_struct("EventStore").field("game_id", &self.game_id).field("len", &self.log.len()).finish()
    }
}

/// The events carried by a sequence of envelopes.
pub open spec fn events_of(envelopes: Seq<GameEventEnvelope>) -> Seq<GameEvent> {
    envelopes.map_values(|env: GameEventEnvelope| env.event)
}

/// Each envelope carries `game_id` and its position as sequence number.
pub open spec fn numbered_from(envelopes: Seq<GameEventEnvelope>, game_id: GameId, first: int) -> bool {
    forall|i: int|
        0 <= i < envelopes.len() ==> (#[trigger] envelopes[i]).sequence == first + i
            && envelopes[i].game_id == game_id
}

impl EventStore {
    #[verifier::type_invariant]
    spec fn numbered(&self) -> bool {
        numbered_from(self.log@, self.game_id, 0)
    }

    /// The envelopes in the store, oldest first.
    pub closed spec fn envelopes(&self) -> Seq<GameEventEnvelope> {
        self.log@
    }

    /// The game this store belongs to.
    pub closed spec fn id(&self) -> GameId {
        self.game_id
    }

    /// The events in the store, oldest first.
    pub open spec fn event_log(&self) -> Seq<GameEvent> {
        events_of(self.envelopes())
    }

    /// Creates a new, empty `EventStore` for the given game.
    pub fn new(game_id: GameId) -> (r: Self)
        ensures
            r.id() == game_id,
            r.envelopes() == Seq::<GameEventEnvelope>::empty(),
    {
        EventStore { game_id, log: Vec::new() }
    }

    /// Returns all events in the store, oldest first.
    pub fn events(&self) -> (r: Vec<GameEvent>)
        ensures
            r@ == self.event_log(),
    {
        let mut out: Vec<GameEvent> = Vec::new();
        let mut i: usize = 0;
        while i < self.log.len()
            invariant
                i <= self.log@.len(),
                out@ == events_of(self.log@.take(i as int)),
            decreases self.log@.len() - i,
        {
            out.push(self.log[i].event.clone());
            assert(events_of(self.log@.take(i + 1)) =~= events_of(self.log@.take(i as int)).push(self.log@[i as int].event));
            i = i + 1;
        }
        assert(self.log@.take(i as int) =~= self.log@);
        out
    }

    /// Returns a copy of the whole log, envelopes included.
    pub fn snapshot(&self) -> (r: Vec<GameEventEnvelope>)
        ensures
            r@ == self.envelopes(),
            numbered_from(r@, self.id(), 0),
    {
        proof {
            use_type_invariant(self);
        }
        let mut out: Vec<GameEventEnvelope> = Vec::new();
        let mut i: usize = 0;
        while i < self.log.len()
            invariant
                i <= self.log@.len(),
                out@ == self.log@.take(i as int),
            decreases self.log@.len() - i,
        {
            out.push(self.log[i].clone());
            assert(self.log@.take(i + 1) =~= self.log@.take(i as int).push(self.log@[i as int]));
            i = i + 1;
        }
        assert(self.log@.take(i as int) =~= self.log@);
        out
    }

    /// Returns the game this store belongs to.
    pub fn game_id(&self) -> (r: GameId)
        ensures
            r == self.id(),
    {
        self.game_id
    }

    /// Returns the number of events in the store.
    pub fn len(&self) -> (r: usize)
        ensures
            r == self.envelopes().len(),
    {
        self.log.len()
    }

    /// Returns `true` if the store holds no events.
    pub fn is_empty(&self) -> (r: bool)
        ensures
            r == (self.envelopes().len() == 0),
    {
        self.len() == 0
    }

    /// Returns `true` if every event in the store can be replayed by
    /// `GameDecider::hydrate`.
    pub fn is_replayable(&self) -> (r: bool)
        ensures
            r == log_applicable(self.event_log()),
    {
        let mut i: usize = 0;
        while i < self.log.len()
            invariant
                i <= self.log@.len(),
                forall|j: int| 0 <= j < i ==> #[trigger] event_applicable(self.log@[j].event),
            decreases self.log@.len() - i,
        {
            if let GameEvent::TilePlaced { at, .. } = &self.log[i].event {
                if *at >= 9 {
                    assert(!event_applicable(self.event_log()[i as int]));
                    return false;
                }
            }
            i = i + 1;
        }
        assert forall|j: int| 0 <= j < self.event_log().len() implies #[trigger] event_applicable(self.event_log()[j]) by {
            assert(event_applicable(self.log@[j].event));
        }
        true
    }

    /// Appends a new event to the store and returns its envelope: the next
    /// sequence number, the store's game id, a fresh id and the current time.
    pub fn append(&mut self, event: GameEvent, command_id: Option<uuid::Uuid>) -> (r: GameEventEnvelope)
        ensures
            final(self).id() == old(self).id(),
            final(self).envelopes() == old(self).envelopes().push(r),
            r.sequence == old(self).envelopes().len(),
            r.game_id == old(self).id(),
            r.event == event,
            r.command_id == command_id,
            r.occurred_at.nanos < 1_000_000_000,
    {
        proof {
            use_type_invariant(&*self);
        }
        let seq = self.log.len() as u64;
        let gee = GameEventEnvelope::new(self.game_id, seq, event, command_id);
        let mut log = Vec::new();
        std::mem::swap(&mut log, &mut self.log);
        log.push(gee.clone());
        self.log = log;
        gee
    }

    /// Appends a batch of events to the store, in order, and returns their
    /// envelopes.
    pub fn append_batch(&mut self, events: Vec<GameEvent>, command_id: Option<uuid::Uuid>) -> (r: Vec<GameEventEnvelope>)
        ensures
            final(self).id() == old(self).id(),
            final(self).envelopes() == old(self).envelopes() + r@,
            events_of(r@) == events@,
            numbered_from(r@, old(self).id(), old(self).envelopes().len() as int),
            forall|i: int| 0 <= i < r@.len() ==> (#[trigger] r@[i]).command_id == command_id,
    {
        let mut out: Vec<GameEventEnvelope> = Vec::new();
        let mut i: usize = 0;
        while i < events.len()
            invariant
                i <= events@.len(),
                self.id() == old(self).id(),
                self.envelopes() == old(self).envelopes() + out@,
                events_of(out@) == events@.take(i as int),
                numbered_from(out@, old(self).id(), old(self).envelopes().len() as int),
                forall|j: int| 0 <= j < out@.len() ==> (#[trigger] out@[j]).command_id == command_id,
            decreases events@.len() - i,
        {
            let ghost before = out@;
            let env = self.append(events[i].clone(), command_id);
            out.push(env);
            assert(events_of(out@) =~= events_of(before).push(events@[i as int]));
            assert(events@.take(i + 1) =~= events@.take(i as int).push(events@[i as int]));
            i = i + 1;
        }
        assert(events@.take(i as int) =~= events@);
        out
    }
}

} // verus!
