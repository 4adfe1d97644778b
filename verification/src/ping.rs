//! The continuous runner's lifecycle.
//!
//! The runner itself spawns threads and so lives outside the library; every
//! lifecycle decision it takes — may a run start, has a halt anything left
//! to do — is made here, over the recorded history of states.

use vstd::prelude::*;

verus! {

/// The lifecycle states of a continuous runner.
#[derive(Clone, Copy, Debug, Eq, PartialEq, Structural)]
pub enum State {
    /// Created, not yet running.
    New,
    /// Background work is in flight.
    Running,
    /// Halted; nothing is in flight any more.
    Halted,
}

/// The recorded lifecycle of a runner: every state it has entered, oldest
/// first, starting from `New`.
pub struct RunnerStates {
    states: Vec<State>,
}

impl RunnerStates {
    /// The recorded history, oldest first.
    pub closed spec fn history(&self) -> Seq<State> {
        self.states@
    }

    /// A fresh history: the runner is `New`.
    pub fn new() -> (r: RunnerStates)
        ensures
            r.history() =~= seq![State::New],
    {
        let mut states: Vec<State> = Vec::new();
        states.push(State::New);
        RunnerStates { states }
    }

    /// Whether the runner is currently in `state`.
    pub fn is_in_state(&self, state: State) -> (r: bool)
        ensures
            r == (self.history().len() > 0 && self.history().last() == state),
    {
        if self.states.len() == 0 {
            false
        } else {
            let last = self.states[self.states.len() - 1];
            last == state
        }
    }

    /// A snapshot of the whole history, oldest first.
    pub fn get_states(&self) -> (r: Vec<State>)
        ensures
            r@ == self.history(),
    {
        let snapshot = self.states.clone();
        assert(snapshot@ =~= self.states@);
        snapshot
    }

    /// Records that the runner started: allowed exactly from `New`, and a
    /// refused start changes nothing.
    pub fn begin_run(&mut self) -> (r: bool)
        ensures
            r == (old(self).history().len() > 0 && old(self).history().last() == State::New),
            r ==> final(self).history() == old(self).history().push(State::Running),
            !r ==> final(self).history() == old(self).history(),
    {
        if self.is_in_state(State::New) {
            self.states.push(State::Running);
            true
        } else {
            false
        }
    }

    /// Whether a halt call has work left: false as soon as `Halted` stands
    /// last in the history, so halting twice is a no-op the second time.
    pub fn needs_halt(&self) -> (r: bool)
        ensures
            r == !(self.history().len() > 0 && self.history().last() == State::Halted),
    {
        !self.is_in_state(State::Halted)
    }

    /// Records that the runner halted.
    pub fn mark_halted(&mut self)
        ensures
            final(self).history() == old(self).history().push(State::Halted),
    {
        self.states.push(State::Halted);
    }
}

/// Law: halting is idempotent.  Whatever the history was, once `Halted` is
/// recorded it stands last, so the next halt call finds nothing left to do
/// and succeeds without touching the stopped runner again.
pub proof fn lemma_halt_idempotent(history: Seq<State>)
    ensures
        history.push(State::Halted).last() == State::Halted,
        history.push(State::Halted).len() > 0,
{
}

} // verus!
