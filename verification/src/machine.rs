//! An explicit-state automaton with guarded transitions. Guarded operations
//! fail with a typed error and leave the state unchanged; `stop` and `reset`
//! are unconditional escape hatches.

use vstd::prelude::*;
use vstd::string::StringExecFns;
use crate::errors::AppError;
use crate::variant::Outcome;

verus! {

/// A type that can be put back into its initial state.
pub trait Resettable {
    fn reset(&mut self);
}

/// The states of the transition engine. There is no terminal state: every
/// state is left again by some transition.
#[derive(Clone, Copy, Debug, PartialEq, Eq, Structural)]
pub enum State {
    Idle,
    Running,
    Paused,
    Stopped,
}

/// Whether `start` is legal from `s`: only an idle or a stopped machine can
/// be started.
pub open spec fn can_start(s: State) -> bool {
    s == State::Idle || s == State::Stopped
}

/// Whether `pause` is legal from `s`: only a running machine can be paused.
pub open spec fn can_pause(s: State) -> bool {
    s == State::Running
}

/// The state after `start`: `Running` where the transition is legal, the
/// source state unchanged where it is not.
pub open spec fn step_start(s: State) -> State {
    if can_start(s) {
        State::Running
    } else {
        s
    }
}

/// The state after `pause`: `Paused` where the transition is legal, the
/// source state unchanged where it is not.
pub open spec fn step_pause(s: State) -> State {
    if can_pause(s) {
        State::Paused
    } else {
        s
    }
}

/// The state after `stop`: `Stopped`, from every source state.
pub open spec fn step_stop(s: State) -> State {
    State::Stopped
}

/// The state after `reset`: `Idle`, from every source state.
pub open spec fn step_reset(s: State) -> State {
    State::Idle
}

/// A small state machine whose only mutators are its four transitions.
pub struct StateMachine {
    current_state: State,
}

impl StateMachine {
    /// The current state: always exactly one of the four variants.
    pub closed spec fn spec_state(&self) -> State {
        self.current_state
    }

    /// A machine in the initial state, `Idle`.
    pub fn new() -> (m: StateMachine)
        ensures
            m.spec_state() == State::Idle,
    {
        StateMachine { current_state: State::Idle }
    }

    /// Starts the machine. Legal from `Idle` and `Stopped`, after which the
    /// machine is `Running`; from any other state it fails with
    /// `InvalidInput` and the state is unchanged.
    pub fn start(&mut self) -> (r: Outcome<(), AppError>)
        ensures
            final(self).spec_state() == step_start(old(self).spec_state()),
            can_start(old(self).spec_state()) ==> r is Success,
            !can_start(old(self).spec_state()) ==> (r matches Outcome::Failure(
                AppError::InvalidInput(m),
            ) && m@ == "Cannot start from current state"@),
    {
        match self.current_state {
            State::Idle | State::Stopped => {
                self.current_state = State::Running;
                Outcome::Success(())
            },
            _ => Outcome::Failure(
                AppError::InvalidInput(String::from_str("Cannot start from current state")),
            ),
        }
    }

    /// Pauses the machine. Legal from `Running` only, after which the
    /// machine is `Paused`; from any other state it fails with
    /// `InvalidInput` and the state is unchanged.
    pub fn pause(&mut self) -> (r: Outcome<(), AppError>)
        ensures
            final(self).spec_state() == step_pause(old(self).spec_state()),
            can_pause(old(self).spec_state()) ==> r is Success,
            !can_pause(old(self).spec_state()) ==> (r matches Outcome::Failure(
                AppError::InvalidInput(m),
            ) && m@ == "Cannot pause from current state"@),
    {
        match self.current_state {
            State::Running => {
                self.current_state = State::Paused;
                Outcome::Success(())
            },
            _ => Outcome::Failure(
                AppError::InvalidInput(String::from_str("Cannot pause from current state")),
            ),
        }
    }

    /// Stops the machine unconditionally: forced termination never fails,
    /// whatever the source state.
    pub fn stop(&mut self)
        ensures
            final(self).spec_state() == step_stop(old(self).spec_state()),
            final(self).spec_state() == State::Stopped,
    {
        self.current_state = State::Stopped;
    }

    /// The current state: a pure, side-effect-free snapshot.
    pub fn get_state(&self) -> (r: State)
        ensures
            r == self.spec_state(),
    {
        self.current_state
    }
}

impl Resettable for StateMachine {
    /// Reinitializes the machine unconditionally: the state is `Idle`
    /// afterwards, whatever it was, and the call never fails.
    fn reset(&mut self)
        ensures
            final(self).spec_state() == step_reset(old(self).spec_state()),
            final(self).spec_state() == State::Idle,
    {
        self.current_state = State::Idle;
    }
}

/// Resetting is idempotent: one `reset` ends in `Idle` from every state, and
/// a second `reset` right after changes nothing — it ends in `Idle` again.
pub proof fn lemma_reset_idempotent(s: State)
    ensures
        step_reset(s) == State::Idle,
        step_reset(step_reset(s)) == step_reset(s),
{
}

/// Stopping is unconditional: `stop` ends in `Stopped` from every state, so
/// stopping twice in a row also changes nothing the second time.
pub proof fn lemma_stop_unconditional(s: State)
    ensures
        step_stop(s) == State::Stopped,
        step_stop(step_stop(s)) == step_stop(s),
{
}

/// A guarded transition that is refused leaves the state exactly as it was:
/// an illegal `start` or `pause` observes the state, never changes it.
pub proof fn lemma_refused_transition_keeps_state(s: State)
    ensures
        !can_start(s) ==> step_start(s) == s,
        !can_pause(s) ==> step_pause(s) == s,
{
}

} // verus!
