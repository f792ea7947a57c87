//! A harness that replays a game's event log step by step, and explores
//! "what if" branches by deciding new commands against any point of it.

use vstd::prelude::*;
use crate::commands::GameCommand;
use crate::decider::{event_applicable, evolve_all, log_applicable, spec_decide, spec_evolve, spec_hydrate, GameDecider};
use crate::errors::TicTacTussleError;
use crate::events::GameEvent;
use crate::invariants::{lemma_decided_applicable, lemma_hydrate_append, lemma_log_applicable_append};
use crate::state::GameState;

verus! {

/// `n` capped at `len`.
pub open spec fn capped(n: int, len: int) -> int {
    if n < len {
        n
    } else {
        len
    }
}

/// Replays and branches a game's event log.
#[derive(Debug)]
pub struct SimulationHarness {
    /// The full log of events.
    log: Vec<GameEvent>,
    /// How many events of the log have been applied.
    cursor: usize,
    /// The state after the first `cursor` events.
    state: GameState,
}

impl Clone for SimulationHarness {
    fn clone(&self) -> (r: Self)
        ensures
            r.events() == self.events(),
            r.position() == self.position(),
            self.wf() ==> r.wf(),
            self.wf() ==> r.current() == self.current(),
    {
        let log = self.log.clone();
        proof {
            assert forall|i: int| 0 <= i < log@.len() implies log@[i] == self.log@[i] by {
                assert(vstd::pervasive::cloned(self.log@[i], log@[i]));
            }
            assert(log@ =~= self.log@);
        }
        SimulationHarness { log, cursor: self.cursor, state: self.state }
    }
}

impl SimulationHarness {
    /// The event log being replayed.
    pub closed spec fn events(&self) -> Seq<GameEvent> {
        self.log@
    }

    /// How many events of the log have been applied.
    pub closed spec fn position(&self) -> int {
        self.cursor as int
    }

    /// The harness is consistent: the cursor lies within the log, the events
    /// before it can be applied, and the state is the state they describe.
    pub closed spec fn wf(&self) -> bool {
        &&& self.cursor <= self.log@.len()
        &&& log_applicable(self.log@.take(self.cursor as int))
        &&& self.state == spec_hydrate(self.log@.take(self.cursor as int))
    }

    /// The state after the events before the cursor.
    pub open spec fn current(&self) -> GameState {
        spec_hydrate(self.events().take(self.position()))
    }

    /// A well-formed harness has its cursor within its log, and the events
    /// before the cursor can be replayed.
    pub proof fn lemma_cursor_within_log(&self)
        requires
            self.wf(),
        ensures
            0 <= self.position() <= self.events().len(),
            log_applicable(self.events().take(self.position())),
    {
    }

    /// Creates a harness from a complete event log, positioned at the end.
    pub fn from_log(log: Vec<GameEvent>) -> (r: Self)
        requires
            log_applicable(log@),
        ensures
            r.wf(),
            r.events() == log@,
            r.position() == log@.len(),
            r.position() <= r.events().len(),
            r.current() == spec_hydrate(log@),
    {
        let state = GameDecider::hydrate(log.as_slice());
        let cursor = log.len();
        assert(log@.take(cursor as int) =~= log@);
        SimulationHarness { log, cursor, state }
    }

    /// Creates a harness from an event log, positioned after its first `n`
    /// events (or at the end, when the log is shorter).
    pub fn from_log_up_to(log: Vec<GameEvent>, n: usize) -> (r: Self)
        requires
            log_applicable(log@.take(capped(n as int, log@.len() as int))),
        ensures
            r.wf(),
            r.events() == log@,
            r.position() == capped(n as int, log@.len() as int),
            r.position() <= r.events().len(),
    {
        let take = if n < log.len() {
            n
        } else {
            log.len()
        };
        let state = Self::hydrate_prefix(&log, take);
        SimulationHarness { log, cursor: take, state }
    }

    /// The state after the first `n` events of `log`.
    fn hydrate_prefix(log: &Vec<GameEvent>, n: usize) -> (r: GameState)
        requires
            n <= log@.len(),
            log_applicable(log@.take(n as int)),
        ensures
            r == spec_hydrate(log@.take(n as int)),
    {
        let mut prefix: Vec<GameEvent> = Vec::new();
        let mut i: usize = 0;
        while i < n
            invariant
                i <= n <= log@.len(),
                prefix@ == log@.take(i as int),
            decreases n - i,
        {
            prefix.push(log[i].clone());
            assert(log@.take(i + 1) =~= log@.take(i as int).push(log@[i as int]));
            i = i + 1;
        }
        GameDecider::hydrate(prefix.as_slice())
    }

    /// Returns the current `GameState`.
    pub fn state(&self) -> (r: &GameState)
        requires
            self.wf(),
        ensures
            *r == self.current(),
    {
        &self.state
    }

    /// Returns the current cursor position.
    pub fn cursor(&self) -> (r: usize)
        ensures
            r == self.position(),
    {
        self.cursor
    }

    /// Returns `true` if the cursor is at the end of the log.
    pub fn is_exhausted(&self) -> (r: bool)
        ensures
            r == (self.position() >= self.events().len()),
    {
        self.cursor >= self.log.len()
    }

    /// Moves the cursor forward by one event, updating the state.
    ///
    /// Returns `false` if the log is already exhausted.
    pub fn step_forward(&mut self) -> (r: bool)
        requires
            old(self).wf(),
            old(self).position() < old(self).events().len() ==> event_applicable(
                old(self).events()[old(self).position()],
            ),
        ensures
            final(self).wf(),
            final(self).events() == old(self).events(),
            r == (old(self).position() < old(self).events().len()),
            final(self).position() == old(self).position() + if r {
                1int
            } else {
                0int
            },
            final(self).position() <= final(self).events().len(),
            r ==> final(self).current() == spec_evolve(old(self).current(), old(self).events()[old(self).position()]),
            !r ==> final(self).current() == old(self).current(),
    {
        let len = self.log.len();
        let c = self.cursor;
        if c >= len {
            return false;
        }
        let ghost before = self.log@.take(c as int);
        let ghost e = self.log@[c as int];
        self.state = GameDecider::evolve(&self.state, &self.log[c]);
        self.cursor = c + 1;
        proof {
            let after = self.log@.take(self.cursor as int);
            assert(after =~= before.push(e));
            assert(after.drop_last() =~= before);
            assert(before + seq![e] =~= after);
            assert(log_applicable(seq![e]));
            lemma_log_applicable_append(before, seq![e]);
        }
        true
    }

    /// Rewinds or fast-forwards the cursor to index `n` (at most the end).
    pub fn rewind_to(&mut self, n: usize)
        requires
            old(self).wf(),
            log_applicable(old(self).events().take(capped(n as int, old(self).events().len() as int))),
        ensures
            final(self).wf(),
            final(self).events() == old(self).events(),
            final(self).position() == capped(n as int, old(self).events().len() as int),
            final(self).position() <= final(self).events().len(),
    {
        self.cursor = if n < self.log.len() {
            n
        } else {
            self.log.len()
        };
        self.state = Self::hydrate_prefix(&self.log, self.cursor);
    }

    /// Decides a command against the current state, without changing the
    /// harness: returns the events and the state they lead to, or why the
    /// command is refused.
    pub fn branch_with_command(&self, cmd: &GameCommand) -> (r: Result<(Vec<GameEvent>, GameState), TicTacTussleError>)
        requires
            self.wf(),
        ensures
            r matches Ok((evs, st)) ==> spec_decide(self.current(), *cmd) == Ok::<Seq<GameEvent>, TicTacTussleError>(evs@)
                && st == evolve_all(self.current(), evs@),
            r matches Err(e) ==> spec_decide(self.current(), *cmd) == Err::<Seq<GameEvent>, TicTacTussleError>(e),
    {
        let events = GameDecider::decide(&self.state, cmd)?;
        proof {
            lemma_decided_applicable(self.state, *cmd);
        }
        let new_state = GameDecider::evolve_from(self.state, events.as_slice());
        Ok((events, new_state))
    }

    /// Replays the remaining events of the log; returns the final state.
    pub fn run_to_end(&mut self) -> (r: &GameState)
        requires
            old(self).wf(),
            log_applicable(old(self).events()),
        ensures
            final(self).wf(),
            final(self).events() == old(self).events(),
            final(self).position() == old(self).events().len(),
            *r == spec_hydrate(old(self).events()),
    {
        while self.step_forward()
            invariant
                self.wf(),
                self.events() == old(self).events(),
                log_applicable(self.events()),
            decreases self.events().len() - self.position(),
        {
        }
        assert(self.log@.take(self.cursor as int) =~= self.log@);
        &self.state
    }
}

/// Stepping forward from position `k` over the next `m` events gives the
/// state at position `k + m`: applying those events one by one to the state
/// at `k` is the same as jumping to `k + m`.
pub proof fn lemma_steps_equal_jump(events: Seq<GameEvent>, k: int, m: int)
    requires
        0 <= k,
        0 <= m,
        k + m <= events.len(),
    ensures
        evolve_all(spec_hydrate(events.take(k)), events.subrange(k, k + m)) == spec_hydrate(events.take(k + m)),
{
    lemma_hydrate_append(events.take(k), events.subrange(k, k + m));
    assert(events.take(k) + events.subrange(k, k + m) =~= events.take(k + m));
}

/// Two well-formed harnesses over the same log at the same position hold
/// the same state: where a harness stands, not how it got there, fixes what
/// `state` returns.
pub proof fn lemma_position_fixes_state(h1: SimulationHarness, h2: SimulationHarness)
    requires
        h1.wf(),
        h2.wf(),
        h1.events() == h2.events(),
        h1.position() == h2.position(),
    ensures
        h1.current() == h2.current(),
        h1.position() <= h1.events().len(),
{
}

} // verus!
