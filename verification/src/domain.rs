//! Observations and transitions produced by external control domains,
//! and the trait such a domain implements.  The core only reads the
//! `to` observation's variant to decide between the bootstrapped and the
//! terminal update path.

use vstd::prelude::*;

use crate::fixed::Fx;

verus! {

/// What a domain emits after a step: a fully or partially observable
/// state, or the terminal state that ends the episode.
#[derive(Clone, Debug)]
pub enum Observation<S, A> {
    Full { state: S, actions: Vec<A> },
    Partial { state: S, actions: Vec<A> },
    Terminal(S),
}

impl<S, A> Observation<S, A> {
    /// The observed state, whatever the variant.
    pub open spec fn state_spec(&self) -> S {
        match self {
            Observation::Full { state, .. } => *state,
            Observation::Partial { state, .. } => *state,
            Observation::Terminal(state) => *state,
        }
    }

    /// Whether this observation ends the episode.
    pub open spec fn is_terminal_spec(&self) -> bool {
        self is Terminal
    }

    /// The observed state, whatever the variant.
    pub fn state(&self) -> (r: &S)
        ensures
            *r == self.state_spec(),
    {
        match self {
            Observation::Full { state, .. } => state,
            Observation::Partial { state, .. } => state,
            Observation::Terminal(state) => state,
        }
    }

    /// Whether this observation ends the episode.
    pub fn is_terminal(&self) -> (r: bool)
        ensures
            r == self.is_terminal_spec(),
    {
        match self {
            Observation::Terminal(_) => true,
            _ => false,
        }
    }
}

/// One observed step of a domain: the observation it started from, the
/// action taken, the reward received, and the observation it ended in.
#[derive(Clone, Debug)]
pub struct Transition<S, A> {
    pub from: Observation<S, A>,
    pub action: A,
    pub reward: Fx,
    pub to: Observation<S, A>,
}

/// A simulated control domain: an external collaborator that emits
/// observations and transitions for the learning core to consume.
pub trait Domain {
    /// The raw state representation.
    type State;

    /// The action representation.
    type Action;

    /// The current observation.
    fn emit(&self) -> Observation<Self::State, Self::Action>;

    /// Applies the action with the given index and returns the observed
    /// transition.
    fn step(&mut self, a: usize) -> Transition<Self::State, Self::Action>;

    /// The reward for moving between two observations.
    fn reward(
        &self,
        from: &Observation<Self::State, Self::Action>,
        to: &Observation<Self::State, Self::Action>,
    ) -> Fx;

    /// Whether the current state ends the episode.
    fn is_terminal(&self) -> bool;
}

} // verus!
